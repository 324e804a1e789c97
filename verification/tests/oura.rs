use question_flow::collector::BaseIntegration;
use question_flow::collector::Oura;

#[test]
fn test_oura() {
    let oura = Oura::new();
    assert_eq!(oura.name(), "Oura");
    assert_eq!(oura.authorize(), true);
    assert_eq!(oura.get_data("2020-01-01".to_string(), "2020-01-01".to_string()), "Oura data");
}

#[test]
fn test_add() {
    assert_eq!(question_flow::collector::add(1, 2), 3);
}
