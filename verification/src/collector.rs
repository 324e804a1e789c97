//! The data-collector side: the common shape of a third-party integration
//! and the one integration currently wired up.

use vstd::prelude::*;
use vstd::string::StringExecFns;

verus! {

/// What every data-source integration offers: a name, an authorization
/// step, and a fetch of the data between two dates. Each implementation
/// says what its methods return by giving bodies to the three spec
/// functions; the method contracts then hold of every implementation.
pub trait BaseIntegration {
    /// The name the integration reports.
    spec fn spec_name(&self) -> Seq<char>;

    /// Whether authorization succeeds.
    spec fn spec_authorized(&self) -> bool;

    /// The data returned for a date range.
    spec fn spec_data(&self, start_date: Seq<char>, end_date: Seq<char>) -> Seq<char>;

    fn name(&self) -> (r: String)
        ensures
            r@ == self.spec_name(),
    ;

    fn authorize(&self) -> (r: bool)
        ensures
            r == self.spec_authorized(),
    ;

    fn get_data(&self, start_date: String, end_date: String) -> (r: String)
        ensures
            r@ == self.spec_data(start_date@, end_date@),
    ;
}

/// The Oura ring integration.
pub struct Oura {
    name: String,
}

impl View for Oura {
    type V = Seq<char>;

    closed spec fn view(&self) -> Seq<char> {
        self.name@
    }
}

impl Oura {
    /// A fresh Oura integration.
    pub fn new() -> (r: Oura)
        ensures
            r@ == "Oura"@,
    {
        Oura { name: String::from_str("Oura") }
    }
}

impl BaseIntegration for Oura {
    /// Oura always reports the fixed name.
    open spec fn spec_name(&self) -> Seq<char> {
        "Oura"@
    }

    /// Oura's authorization always succeeds.
    open spec fn spec_authorized(&self) -> bool {
        true
    }

    /// Oura returns the same placeholder data for every date range.
    open spec fn spec_data(&self, start_date: Seq<char>, end_date: Seq<char>) -> Seq<char> {
        "Oura data"@
    }

    fn name(&self) -> (r: String) {
        String::from_str("Oura")
    }

    fn authorize(&self) -> (r: bool) {
        true
    }

    fn get_data(&self, start_date: String, end_date: String) -> (r: String) {
        String::from_str("Oura data")
    }
}

/// The sum of two numbers; the arguments must not overflow the range.
pub fn add(a: i32, b: i32) -> (r: i32)
    requires
        i32::MIN <= a + b <= i32::MAX,
    ensures
        r == a + b,
{
    a + b
}

} // verus!
