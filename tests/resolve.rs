use sdkdocs::catalog::{list_services, Service};
use sdkdocs::matcher::{build_pattern, Version};
use sdkdocs::resolver::{resolve, ResolvedVersion};
use sdkdocs::text::doc_url;

fn ids(items: &[&str]) -> Vec<String> {
    items.iter().map(|s| s.to_string()).collect()
}

fn version(major: u64, minor: u64, patch: u64) -> Version {
    Version { major, minor, patch }
}

#[test]
fn canonical_names_are_distinct() {
    let services = list_services();
    for (i, a) in services.iter().enumerate() {
        for b in services.iter().skip(i + 1) {
            assert_ne!(a.url_expression(), b.url_expression(), "{:?} and {:?}", a, b);
        }
    }
}

#[test]
fn catalog_lists_every_service_in_order() {
    let services = list_services();
    assert_eq!(services.len(), 68);
    assert_eq!(services[0], Service::Amplify);
    assert_eq!(services[49], Service::Lambda);
    assert_eq!(services[67], Service::UserNotifications);
}

#[test]
fn canonical_names_of_some_services() {
    assert_eq!(Service::Lambda.url_expression(), "lambda");
    assert_eq!(Service::S3Glacier.url_expression(), "glacier");
    assert_eq!(Service::StepFunctions.url_expression(), "sfn");
    assert_eq!(Service::EventBridgePipes.url_expression(), "pipes");
}

#[test]
fn every_service_matches_its_own_identifier() {
    for s in list_services() {
        let id = format!("aws-sdk-{}@12.0.345", s.url_expression());
        assert_eq!(s.package_id_pattern().try_match(&id), Some(version(12, 0, 345)), "{:?}", s);
    }
}

#[test]
fn leading_zeros_are_read_as_numbers() {
    let p = build_pattern("s3");
    assert_eq!(p.try_match("aws-sdk-s3@2.07.10"), Some(version(2, 7, 10)));
    assert_eq!(p.try_match("aws-sdk-s3@000.001.0100"), Some(version(0, 1, 100)));
}

#[test]
fn arbitrary_text_may_stand_before_the_package_name() {
    let p = build_pattern("s3");
    assert_eq!(
        p.try_match("registry+https://github.com/rust-lang/crates.io-index#aws-sdk-s3@1.65.0"),
        Some(version(1, 65, 0))
    );
}

#[test]
fn longer_names_are_not_taken_for_a_prefix() {
    let p = build_pattern("s3");
    assert_eq!(p.try_match("aws-sdk-s3tables@1.0.0"), None);
    assert_eq!(p.try_match("aws-sdk-s3glacier@1.0.0"), None);
}

#[test]
fn names_that_end_the_same_are_not_confused() {
    let p = build_pattern("greengrassv2");
    assert_eq!(p.try_match("aws-sdk-greengrass@1.0.0"), None);
    let p = build_pattern("greengrass");
    assert_eq!(p.try_match("aws-sdk-greengrassv2@1.0.0"), None);
    assert_eq!(p.try_match("aws-sdk-iotgreengrass@1.0.0"), None);
}

#[test]
fn malformed_identifiers_do_not_match() {
    let p = build_pattern("s3");
    for id in [
        "",
        "aws-sdk-s3",
        "aws-sdk-s3@1.2",
        "aws-sdk-s3@1..2",
        "aws-sdk-s3@.1.2",
        "aws-sdk-s3@1.2.",
        "aws-sdk-s3@1.2.3x",
        "aws-sdk-s3@1.2.3 ",
        "aws-sdk-s3@v1.2.3",
        "aws-sdk-s3@1.2.3-beta",
        "aws-sdk-s3 1.2.3",
        "aws_sdk_s3@1.2.3",
        "sdk-s3@1.2.3",
    ] {
        assert_eq!(p.try_match(id), None, "{:?}", id);
    }
}

#[test]
fn components_too_large_for_u64_do_not_match() {
    let p = build_pattern("s3");
    assert_eq!(p.try_match("aws-sdk-s3@18446744073709551615.0.0"), Some(version(u64::MAX, 0, 0)));
    assert_eq!(p.try_match("aws-sdk-s3@18446744073709551616.0.0"), None);
    assert_eq!(p.try_match("aws-sdk-s3@1.0.99999999999999999999"), None);
}

#[test]
fn empty_graph_resolves_to_latest() {
    assert_eq!(resolve(Service::Lambda, &Vec::new()), ResolvedVersion::Latest);
}

#[test]
fn graph_without_a_match_resolves_to_latest() {
    let graph = ids(&["serde@1.0.0", "aws-sdk-s3@1.0.0", "aws-sdk-lambdax@1.0.0"]);
    assert_eq!(resolve(Service::Lambda, &graph), ResolvedVersion::Latest);
}

#[test]
fn single_match_wins_wherever_it_stands() {
    let orders = [
        ["aws-sdk-ecs@1.2.3", "serde@1.0.0", "aws-sdk-ecr@4.5.6"],
        ["serde@1.0.0", "aws-sdk-ecs@1.2.3", "aws-sdk-ecr@4.5.6"],
        ["serde@1.0.0", "aws-sdk-ecr@4.5.6", "aws-sdk-ecs@1.2.3"],
    ];
    for order in orders {
        assert_eq!(resolve(Service::ECS, &ids(&order)), ResolvedVersion::Exact(version(1, 2, 3)));
        assert_eq!(resolve(Service::ECR, &ids(&order)), ResolvedVersion::Exact(version(4, 5, 6)));
    }
}

#[test]
fn first_of_two_matches_wins() {
    let graph = ids(&["a#aws-sdk-sts@1.0.0", "b#aws-sdk-sts@2.0.0"]);
    assert_eq!(resolve(Service::STS, &graph), ResolvedVersion::Exact(version(1, 0, 0)));
}

#[test]
fn lambda_is_found_among_other_packages() {
    let graph = ids(&["serde@1.0.0", "aws-sdk-lambda@1.54.2", "tokio@1.38.0"]);
    let r = resolve(Service::Lambda, &graph);
    assert_eq!(r, ResolvedVersion::Exact(version(1, 54, 2)));
    assert_eq!(r.as_string(), "1.54.2");
}

#[test]
fn lambda_missing_falls_back_to_latest() {
    let graph = ids(&["serde@1.0.0", "tokio@1.38.0"]);
    let r = resolve(Service::Lambda, &graph);
    assert_eq!(r, ResolvedVersion::Latest);
    assert_eq!(r.as_string(), "latest");
}

#[test]
fn decoy_with_a_longer_name_is_skipped() {
    let graph = ids(&["aws-sdk-lambda-extra@2.0.0"]);
    assert_eq!(resolve(Service::Lambda, &graph).as_string(), "latest");
    let graph = ids(&["aws-sdk-lambda-extra@2.0.0", "aws-sdk-lambda@1.3.0"]);
    assert_eq!(resolve(Service::Lambda, &graph).as_string(), "1.3.0");
}

#[test]
fn version_text_is_plain_decimal() {
    assert_eq!(ResolvedVersion::Exact(version(0, 0, 0)).as_string(), "0.0.0");
    assert_eq!(ResolvedVersion::Exact(version(2, 7, 10)).as_string(), "2.7.10");
    assert_eq!(
        ResolvedVersion::Exact(version(u64::MAX, 100, 9)).as_string(),
        "18446744073709551615.100.9"
    );
}

#[test]
fn documentation_address() {
    assert_eq!(
        doc_url(Service::Lambda, ResolvedVersion::Exact(version(1, 54, 2))),
        "https://docs.rs/aws-sdk-lambda/1.54.2/aws_sdk_lambda/client/struct.Client.html"
    );
    assert_eq!(
        doc_url(Service::StepFunctions, ResolvedVersion::Latest),
        "https://docs.rs/aws-sdk-sfn/latest/aws_sdk_sfn/client/struct.Client.html"
    );
}
