#[test]
fn it_works() {
    let result = redis_session_manager::add(2, 2);
    assert_eq!(result, 4);
}
