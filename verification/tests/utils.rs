use shim_core::error::Error;
use shim_core::utils::{join_path, temp_path_for, temp_path_parts};

#[test]
fn temp_path_sits_beside_the_file() {
    assert_eq!(temp_path_for("/run/shim/address"), Ok("/run/shim/.address".to_string()));
    assert_eq!(temp_path_for("/run/shim/init.pid"), Ok("/run/shim/.init.pid".to_string()));
}

#[test]
fn temp_path_of_relative_file() {
    assert_eq!(temp_path_for("address"), Ok(".address".to_string()));
    assert_eq!(temp_path_for("dir/address"), Ok("dir/.address".to_string()));
}

#[test]
fn temp_path_refuses_paths_without_file_name() {
    assert_eq!(
        temp_path_for("/run/.."),
        Err(Error::InvalidArgument("pid path illegal /run/..".to_string()))
    );
    assert_eq!(temp_path_for("/"), Err(Error::InvalidArgument("pid path illegal /".to_string())));
    assert_eq!(temp_path_for(""), Err(Error::InvalidArgument("pid path illegal ".to_string())));
}

#[test]
fn temp_path_parts_choose_the_error() {
    assert_eq!(
        temp_path_parts("x", None, Some("d".to_string())),
        Err(Error::InvalidArgument("pid path illegal x".to_string()))
    );
    assert_eq!(
        temp_path_parts("x", Some("x".to_string()), None),
        Err(Error::InvalidArgument("failed to create tmp path".to_string()))
    );
    assert_eq!(
        temp_path_parts("d/x", Some("x".to_string()), Some("d".to_string())),
        Ok(("d".to_string(), ".x".to_string()))
    );
}

#[test]
fn join_path_adds_one_separator() {
    assert_eq!(join_path("/run", "x"), "/run/x");
    assert_eq!(join_path("/run/", "x"), "/run/x");
    assert_eq!(join_path("", "x"), "x");
    assert_eq!(join_path("/run", "/abs"), "/abs");
    assert_eq!(join_path("a", ""), "a/");
}

#[test]
fn join_path_agrees_with_std() {
    for (b, t) in [("/run", "x"), ("/run/", ".y"), ("", "z"), ("a/b", "/c"), ("a", "")] {
        let expected = std::path::Path::new(b).join(t).to_string_lossy().into_owned();
        assert_eq!(join_path(b, t), expected);
    }
}
