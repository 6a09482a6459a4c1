use rustacean::runner::is_running_as_docker_container;

#[test]
fn test_env() {
    assert_eq!(
        true,
        is_running_as_docker_container("12:pids:/docker/36010be8d8abf2e02ebd4d0c44b83272bbbc0d8c03b8fb89b04e02c9c1a13298")
    );
    assert!(!is_running_as_docker_container("12:pids:/init.scope"));
}
