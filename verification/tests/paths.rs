use search_api_server::path::second_component;
use std::path::PathBuf;

fn by_standard_library(path: &str) -> String {
    let path_buf = PathBuf::from(path);
    let mut path_iter = path_buf.iter();
    path_iter.next();
    path_iter.next().unwrap_or_default().to_str().unwrap_or_default().to_string()
}

#[test]
fn second_component_of_plain_paths() {
    assert_eq!(second_component("/v1/models"), "v1");
    assert_eq!(second_component("/echo"), "echo");
    assert_eq!(second_component("/"), "");
    assert_eq!(second_component(""), "");
    assert_eq!(second_component("a"), "");
    assert_eq!(second_component("a/b/c"), "b");
}

#[test]
fn extra_slashes_and_dots_do_not_count() {
    assert_eq!(second_component("//v1"), "v1");
    assert_eq!(second_component("/./v1/"), "v1");
    assert_eq!(second_component("/././/v1"), "v1");
    assert_eq!(second_component("./v1"), "v1");
    assert_eq!(second_component("a/./b"), "b");
    assert_eq!(second_component("/../v1"), "..");
    assert_eq!(second_component("/.v1"), ".v1");
}

#[test]
fn second_component_is_that_of_the_standard_library() {
    let pieces = ["", "/", ".", "..", "a", "bc", "\u{e9}", "//", "/.", "./", ".a"];
    for a in pieces {
        for b in pieces {
            for c in pieces {
                for d in pieces {
                    let path = format!("{}{}{}{}", a, b, c, d);
                    assert_eq!(second_component(&path), by_standard_library(&path), "{:?}", path);
                }
            }
        }
    }
}
