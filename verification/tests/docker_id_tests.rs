//! The unit tests of the container ID and image reference helpers.

use buildutils::docker::{container_port_from_id, exact_name_filter, image_tag};

#[test]
fn utils_test_exact_name_filter_anchors_the_pattern() {
    // Without the anchors Docker also matches nginx-8080 for a nginx-80 lookup.
    assert_eq!(exact_name_filter("nginx-80"), "--filter=name=^nginx-80$");
}

#[test]
fn utils_test_exact_name_filter_escapes_dots() {
    // A dot is a regular expression wildcard and the only metacharacter Docker allows
    // in a container name.
    assert_eq!(
        exact_name_filter("my.app-80"),
        "--filter=name=^my\\.app-80$"
    );
}

#[test]
fn utils_test_container_port_from_id() {
    assert_eq!(container_port_from_id("nginx-80").unwrap(), 80);
    assert_eq!(container_port_from_id("my-app-8080").unwrap(), 8080);
    assert_eq!(container_port_from_id("postgres-5432").unwrap(), 5432);
}

#[test]
fn utils_test_container_port_from_id_without_port_suffix() {
    // Must report an error rather than panicking: container IDs arrive from the caller
    // and are not required to carry a port suffix.
    let res = container_port_from_id("redis");
    assert!(res.is_err());
    assert!(res.unwrap_err().to_string().contains("redis"));
}

#[test]
fn utils_test_container_port_from_id_rejects_out_of_range_port() {
    // 70000 does not fit a u16.
    assert!(container_port_from_id("service-70000").is_err());
}

#[test]
fn utils_test_container_port_from_id_rejects_empty_suffix() {
    assert!(container_port_from_id("service-").is_err());
}

#[test]
fn utils_test_image_tag() {
    assert_eq!(image_tag("nginx:1.27.0"), Some("1.27.0"));
    assert_eq!(image_tag("postgres:17-alpine3.20"), Some("17-alpine3.20"));
}

#[test]
fn utils_test_image_tag_trims_command_output() {
    // docker ps terminates its output with a newline.
    assert_eq!(image_tag("nginx:1.27.0\n"), Some("1.27.0"));
}

#[test]
fn utils_test_image_tag_of_registry_path() {
    assert_eq!(
        image_tag("asia-northeast1-docker.pkg.dev/project/repo/api:b422ae3"),
        Some("b422ae3")
    );
}

#[test]
fn utils_test_image_tag_ignores_registry_port() {
    // The colon introduces the registry port, not a tag, so there is no tag to report.
    assert_eq!(image_tag("registry.io:5000/image"), None);
    // With a tag present the registry port must not confuse the lookup.
    assert_eq!(image_tag("registry.io:5000/image:1.0"), Some("1.0"));
}

#[test]
fn utils_test_image_tag_of_untagged_image() {
    assert_eq!(image_tag("nginx"), None);
}
