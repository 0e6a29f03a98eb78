use solr_subquery::Operator;
use solr_subquery::QueryParam;
use solr_subquery::SolrQuery;
use solr_subquery::SolrSubqueryError;
use solr_subquery::UrlParts;
use urlencoding::decode;

#[test]
fn url_string_percent_encodes_the_query() {
    let query = SolrQuery::new("http://localhost:8983/solr/collection/select?q=1:*").unwrap();
    let raw = query.url.to_url_string();
    assert_eq!(raw, "http://localhost:8983/solr/collection/select?q=1%3A*");
}

#[test]
fn joined_url_percent_encodes_parentheses_and_spaces() {
    let first = SolrQuery::new("http://localhost:8983/solr/collection/select?q=1:*").unwrap();
    let second = SolrQuery::new("http://localhost:8983/solr/collection/select?q=2:*").unwrap();
    let joined = first.inner_join(&second).unwrap();
    let raw = joined.url.to_url_string();
    assert_eq!(
        raw,
        "http://localhost:8983/solr/collection/select?q=%281%3A*%29+AND+%282%3A*%29"
    );
}

#[test]
fn url_string_without_port() {
    let query = SolrQuery::new("http://example.com/solr/collection/select?q=a").unwrap();
    assert_eq!(
        query.url.to_url_string(),
        "http://example.com/solr/collection/select?q=a"
    );
}

#[test]
fn construction_rejects_unparseable_urls() {
    let result = SolrQuery::new("not a url");
    assert!(matches!(result, Err(SolrSubqueryError::InvalidUrl(_))));
}

#[test]
fn params_returns_values_of_the_named_parameter_in_order() {
    let query =
        SolrQuery::new("http://localhost:8983/solr/collection/select?rows=10&q=1:*").unwrap();
    assert_eq!(query.url.params("q"), vec!["1:*".to_string()]);
    assert_eq!(query.url.params("rows"), vec!["10".to_string()]);
    assert_eq!(query.url.params("absent"), Vec::<String>::new());
}

#[test]
fn set_param_replaces_only_the_named_parameter() {
    let mut url = UrlParts {
        scheme: "http".to_string(),
        host: Some("localhost".to_string()),
        port: Some(8983),
        path: "/solr/collection/select".to_string(),
        params: vec![
            ("rows".to_string(), "10".to_string()),
            ("q".to_string(), "old".to_string()),
        ],
    };
    url.set_param(("q", "new"));
    assert_eq!(url.params("q"), vec!["new".to_string()]);
    assert_eq!(url.params("rows"), vec!["10".to_string()]);
    assert_eq!(
        url.to_url_string(),
        "http://localhost:8983/solr/collection/select?rows=10&q=new"
    );
}

#[test]
fn from_parts_validates_the_q_parameter_count() {
    let no_q = UrlParts {
        scheme: "http".to_string(),
        host: Some("localhost".to_string()),
        port: Some(8983),
        path: "/solr/collection/select".to_string(),
        params: vec![("rows".to_string(), "10".to_string())],
    };
    assert_eq!(
        SolrQuery::from_parts(no_q),
        Err(SolrSubqueryError::MissingQQueryParameter)
    );

    let two_q = UrlParts {
        scheme: "http".to_string(),
        host: Some("localhost".to_string()),
        port: Some(8983),
        path: "/solr/collection/select".to_string(),
        params: vec![
            ("q".to_string(), "1".to_string()),
            ("q".to_string(), "2".to_string()),
        ],
    };
    assert_eq!(
        SolrQuery::from_parts(two_q),
        Err(SolrSubqueryError::MultipleQQueryParameters)
    );
}

#[test]
fn query_param_trait_reads_and_writes_parameters() {
    let mut url = UrlParts {
        scheme: "http".to_string(),
        host: Some("localhost".to_string()),
        port: Some(8983),
        path: "/solr/collection/select".to_string(),
        params: vec![("q".to_string(), "old".to_string())],
    };
    QueryParam::set_param(&mut url, ("q", "x"));
    assert_eq!(QueryParam::params(&url, "q"), vec!["x".to_string()]);
}

#[test]
fn operator_text_is_uppercase() {
    assert_eq!(Operator::And.to_text(), "AND");
    assert_eq!(Operator::Or.to_text(), "OR");
    assert_eq!(Operator::Not.to_text(), "NOT");
}

#[test]
fn join_preserves_other_parameters_of_the_second_operand() {
    let first = SolrQuery::new("http://localhost:8983/solr/collection/select?q=1:*").unwrap();
    let second = SolrQuery::new(
        "http://localhost:8983/solr/collection/select?rows=10&q=2:*&fl=id,score",
    )
    .unwrap();
    let joined = first.inner_join(&second).unwrap();
    let raw = joined.url.to_url_string();
    let decoded = decode(&raw).unwrap();
    assert_eq!(
        decoded,
        "http://localhost:8983/solr/collection/select?rows=10&q=(1:*)+AND+(2:*)&fl=id,score"
    );
}

#[test]
fn inverse_twice_returns_to_the_original_url() {
    let first = SolrQuery::new("http://localhost:8983/solr/collection/select?q=1:*").unwrap();
    let second = SolrQuery::new("http://localhost:8983/solr/collection/select?q=2:*").unwrap();
    let joined = first.inner_join(&second).unwrap();
    let back = joined.inverse().inverse();
    assert_eq!(back.url.to_url_string(), joined.url.to_url_string());
}
