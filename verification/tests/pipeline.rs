use tfdocs::client::{Request, Shape};
use tfdocs::error::{LookupError, Missing};
use tfdocs::identifier::Args;
use tfdocs::pipeline::{Action, Event, Stage};
use tfdocs::registry::{
    DataResponse, DocsAttributes, Empty, Links, Resource, Timestamp, VersionAttributes,
};

fn args(resource: &str) -> Args {
    Args { resource: resource.to_string() }
}

fn entity(id: &str, kind: &str, self_path: &str) -> Resource<Empty> {
    Resource {
        id: id.to_string(),
        _type: kind.to_string(),
        links: Links { _self: self_path.to_string() },
        attributes: Empty {},
    }
}

fn version(id: &str, number: &str, published_seconds: i64) -> Resource<VersionAttributes> {
    Resource {
        id: id.to_string(),
        _type: "provider-versions".to_string(),
        links: Links { _self: format!("/v2/provider-versions/{id}") },
        attributes: VersionAttributes {
            description: String::new(),
            downloads: 0,
            published_at: Timestamp { seconds: published_seconds, nanos: 0 },
            tag: format!("v{number}"),
            version: number.to_string(),
        },
    }
}

fn page(content: &str) -> Resource<DocsAttributes> {
    Resource {
        id: "8862001".to_string(),
        _type: "provider-docs".to_string(),
        links: Links { _self: "/v2/provider-docs/8862001".to_string() },
        attributes: DocsAttributes {
            content: content.to_string(),
            category: "resources".to_string(),
            slug: "bigquery_dataset_access".to_string(),
            subcategory: "BigQuery".to_string(),
            title: "google_bigquery_dataset_access".to_string(),
        },
    }
}

fn providers(data: Vec<Resource<Empty>>) -> Event {
    Event::Providers(DataResponse { data })
}

fn versions(data: Vec<Resource<VersionAttributes>>) -> Event {
    Event::Versions(DataResponse { data })
}

fn docs(data: Vec<Resource<Empty>>) -> Event {
    Event::Docs(DataResponse { data })
}

fn document(content: &str) -> Event {
    Event::Document(DataResponse { data: page(content) })
}

fn fetch(url: &str, expects: Shape) -> Action {
    Action::Fetch(Request { url: url.to_string(), expects })
}

/// A registry with one provider, one version and one documentation entry.
fn mock_registry(request: &Request) -> Event {
    let url = request.url.as_str();
    if url
        == "https://registry.terraform.io/v2/providers?filter[namespace]=hashicorp&filter[name]=google"
    {
        providers(vec![entity("323", "providers", "/v2/providers/323")])
    } else if url == "https://registry.terraform.io/v2/providers/323/provider-versions" {
        versions(vec![version("70800", "6.8.0", 1_700_000_000)])
    } else if url
        == "https://registry.terraform.io/v2/provider-docs?filter[provider-version]=70800&filter[category]=resources&filter[slug]=bigquery_dataset_access"
    {
        docs(vec![entity("8862001", "provider-docs", "/v2/provider-docs/8862001")])
    } else if url == "https://registry.terraform.io/v2/provider-docs/8862001" {
        document("# Foo\n...")
    } else {
        Event::Failed { cause: format!("404 Not Found: {url}") }
    }
}

fn all_stages() -> Vec<Stage> {
    vec![
        Stage::AwaitingProviders { resource: "s3_bucket".to_string() },
        Stage::AwaitingVersions { resource: "s3_bucket".to_string() },
        Stage::AwaitingDocs,
        Stage::AwaitingDocument,
        Stage::Finished,
    ]
}

fn unexpected() -> (Stage, Action) {
    (
        Stage::Finished,
        Action::Fail(LookupError::Fetch { cause: "unexpected response".to_string() }),
    )
}

#[test]
fn begin_asks_for_the_provider() {
    let (stage, action) = Stage::begin(&args("google_bigquery_dataset_access"));
    assert_eq!(stage, Stage::AwaitingProviders { resource: "bigquery_dataset_access".to_string() });
    assert_eq!(
        action,
        fetch(
            "https://registry.terraform.io/v2/providers?filter[namespace]=hashicorp&filter[name]=google",
            Shape::Providers
        )
    );
}

#[test]
fn begin_without_underscore_fails_to_parse() {
    let (stage, action) = Stage::begin(&args("noUnderscoreHere"));
    assert_eq!(stage, Stage::Finished);
    assert_eq!(action, Action::Fail(LookupError::Parse));
}

#[test]
fn empty_provider_lookup_ends_without_further_requests() {
    let (stage, _) = Stage::begin(&args("nosuch_thing"));
    let (stage, action) = stage.next(providers(Vec::new()));
    assert_eq!(action, Action::Fail(LookupError::NotFound(Missing::Provider)));
    assert_eq!(stage, Stage::Finished);

    let later = vec![
        providers(vec![entity("1", "providers", "/v2/providers/1")]),
        versions(vec![version("v1", "1.0.0", 1)]),
        docs(vec![entity("2", "provider-docs", "/v2/provider-docs/2")]),
        document("# Late"),
        Event::Failed { cause: "late".to_string() },
        Event::TimedOut,
    ];
    let mut stage = stage;
    for event in later {
        let (then, action) = stage.next(event);
        assert!(matches!(action, Action::Fail(_)));
        assert_eq!(then, Stage::Finished);
        stage = then;
    }
}

#[test]
fn provider_match_leads_to_its_versions() {
    let stage = Stage::AwaitingProviders { resource: "s3_bucket".to_string() };
    let (stage, action) = stage.next(providers(vec![
        entity("7", "providers", "/v2/providers/7"),
        entity("8", "providers", "/v2/providers/8"),
    ]));
    assert_eq!(stage, Stage::AwaitingVersions { resource: "s3_bucket".to_string() });
    assert_eq!(
        action,
        fetch("https://registry.terraform.io/v2/providers/7/provider-versions", Shape::Versions)
    );
}

#[test]
fn empty_version_list_fails() {
    let stage = Stage::AwaitingVersions { resource: "s3_bucket".to_string() };
    let (stage, action) = stage.next(versions(Vec::new()));
    assert_eq!(stage, Stage::Finished);
    assert_eq!(action, Action::Fail(LookupError::NotFound(Missing::Version)));
}

#[test]
fn last_version_is_used_whatever_the_dates() {
    let stage = Stage::AwaitingVersions { resource: "s3_bucket".to_string() };
    let (stage, action) = stage.next(versions(vec![
        version("v1", "3.0.0", 300),
        version("v2", "2.0.0", 200),
        version("v3", "1.0.0", 100),
    ]));
    assert_eq!(stage, Stage::AwaitingDocs);
    assert_eq!(
        action,
        fetch(
            "https://registry.terraform.io/v2/provider-docs?filter[provider-version]=v3&filter[category]=resources&filter[slug]=s3_bucket",
            Shape::Docs
        )
    );
}

#[test]
fn empty_docs_list_fails() {
    let (stage, action) = Stage::AwaitingDocs.next(docs(Vec::new()));
    assert_eq!(stage, Stage::Finished);
    assert_eq!(action, Action::Fail(LookupError::NotFound(Missing::Resource)));
}

#[test]
fn docs_match_leads_to_the_full_document() {
    let (stage, action) = Stage::AwaitingDocs.next(docs(vec![entity(
        "1",
        "provider-docs",
        "/providers/google/latest/docs/resources/foo",
    )]));
    assert_eq!(stage, Stage::AwaitingDocument);
    assert_eq!(
        action,
        fetch(
            "https://registry.terraform.io/providers/google/latest/docs/resources/foo",
            Shape::Document
        )
    );
}

#[test]
fn document_is_rendered_verbatim() {
    let text = "# Title\n\n* a\n* b\n\n```hcl\nresource \"x\" \"y\" {}\n```\n";
    let (stage, action) = Stage::AwaitingDocument.next(document(text));
    assert_eq!(stage, Stage::Finished);
    assert_eq!(action, Action::Render(text.to_string()));
}

#[test]
fn lookup_against_a_mock_registry_renders_the_page() {
    let (mut stage, mut action) = Stage::begin(&args("google_bigquery_dataset_access"));
    let mut requested = Vec::new();
    let rendered = loop {
        match action {
            Action::Fetch(request) => {
                let event = mock_registry(&request);
                requested.push(request);
                (stage, action) = stage.next(event);
            }
            Action::Render(text) => break text,
            Action::Fail(e) => panic!("lookup failed: {}", e.message()),
        }
    };
    assert_eq!(rendered, "# Foo\n...");
    assert_eq!(stage, Stage::Finished);
    let shapes: Vec<Shape> = requested.iter().map(|request| request.expects).collect();
    assert_eq!(shapes, vec![Shape::Providers, Shape::Versions, Shape::Docs, Shape::Document]);
    assert_eq!(requested[3].url, "https://registry.terraform.io/v2/provider-docs/8862001");
}

#[test]
fn lookup_of_an_unknown_resource_reports_the_failed_request() {
    let (mut stage, mut action) = Stage::begin(&args("aws_s3_bucket"));
    let mut requests = 0;
    let error = loop {
        match action {
            Action::Fetch(request) => {
                requests += 1;
                (stage, action) = stage.next(mock_registry(&request));
            }
            Action::Render(text) => panic!("rendered {text}"),
            Action::Fail(e) => break e,
        }
    };
    assert_eq!(requests, 1);
    assert_eq!(stage, Stage::Finished);
    assert_eq!(
        error,
        LookupError::Fetch {
            cause: "404 Not Found: https://registry.terraform.io/v2/providers?filter[namespace]=hashicorp&filter[name]=aws"
                .to_string()
        }
    );
}

#[test]
fn failed_request_ends_any_stage_with_its_cause() {
    for stage in all_stages() {
        let (then, action) = stage.next(Event::Failed { cause: "dns error".to_string() });
        assert_eq!(then, Stage::Finished);
        assert_eq!(action, Action::Fail(LookupError::Fetch { cause: "dns error".to_string() }));
    }
}

#[test]
fn timed_out_request_ends_any_stage() {
    for stage in all_stages() {
        let (then, action) = stage.next(Event::TimedOut);
        assert_eq!(then, Stage::Finished);
        assert_eq!(action, Action::Fail(LookupError::Timeout));
    }
}

#[test]
fn response_of_another_shape_is_unexpected() {
    let provider = || providers(vec![entity("1", "providers", "/v2/providers/1")]);
    let listed = || versions(vec![version("v1", "1.0.0", 1)]);
    let entries = || docs(vec![entity("2", "provider-docs", "/v2/provider-docs/2")]);
    let resource = || "s3_bucket".to_string();

    assert_eq!(Stage::AwaitingProviders { resource: resource() }.next(listed()), unexpected());
    assert_eq!(Stage::AwaitingProviders { resource: resource() }.next(entries()), unexpected());
    assert_eq!(Stage::AwaitingProviders { resource: resource() }.next(document("x")), unexpected());
    assert_eq!(Stage::AwaitingVersions { resource: resource() }.next(provider()), unexpected());
    assert_eq!(Stage::AwaitingVersions { resource: resource() }.next(entries()), unexpected());
    assert_eq!(Stage::AwaitingDocs.next(provider()), unexpected());
    assert_eq!(Stage::AwaitingDocs.next(listed()), unexpected());
    assert_eq!(Stage::AwaitingDocs.next(document("x")), unexpected());
    assert_eq!(Stage::AwaitingDocument.next(entries()), unexpected());
    assert_eq!(Stage::AwaitingDocument.next(provider()), unexpected());
}

#[test]
fn finished_lookup_renders_nothing_more() {
    assert_eq!(Stage::Finished.next(document("# Again")), unexpected());
}

#[test]
fn fetch_keeps_the_lookup_open_and_everything_else_ends_it() {
    let events = || {
        vec![
            providers(Vec::new()),
            providers(vec![entity("1", "providers", "/v2/providers/1")]),
            versions(Vec::new()),
            versions(vec![version("v1", "1.0.0", 1)]),
            docs(Vec::new()),
            docs(vec![entity("2", "provider-docs", "/v2/provider-docs/2")]),
            document("# Page"),
            Event::Failed { cause: "reset".to_string() },
            Event::TimedOut,
        ]
    };
    for stage in all_stages() {
        for event in events() {
            let (then, action) = stage.clone().next(event);
            assert_eq!(matches!(action, Action::Fetch(_)), then != Stage::Finished);
        }
    }
}

#[test]
fn pipeline_values_clone_equal() {
    for stage in all_stages() {
        assert_eq!(stage.clone(), stage);
    }
    let event = versions(vec![version("v1", "1.0.0", 1), version("v2", "1.1.0", 2)]);
    assert_eq!(event.clone(), event);
    let action = fetch("https://registry.terraform.io/v2/providers/7/provider-versions", Shape::Versions);
    assert_eq!(action.clone(), action);
}
