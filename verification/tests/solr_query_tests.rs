use solr_subquery::SolrQuery;
use solr_subquery::SolrSubqueryError;
use urlencoding::decode;

#[test]
fn should_inner_join_queries() {
    let first_query =
        SolrQuery::new("http://localhost:8983/solr/collection1/select?q=1:*").unwrap();
    let second_query =
        SolrQuery::new("http://localhost:8983/solr/collection1/select?q=2:*").unwrap();

    let inner_join_query = first_query.inner_join(&second_query).unwrap();

    let url_string = inner_join_query.url.to_url_string();
    let result = decode(&url_string).unwrap();
    let expected = "http://localhost:8983/solr/collection1/select?q=(1:*)+AND+(2:*)";
    assert_eq!(result, expected);

    let negation_url_string = inner_join_query.inverse().url.to_url_string();
    let negation_result = decode(&negation_url_string).unwrap();
    let negation_expected = "http://localhost:8983/solr/collection1/select?q=(1:*)+NOT+(2:*)";

    assert_eq!(negation_result, negation_expected);
}

#[test]
fn should_multi_chain() {
    let first_query =
        SolrQuery::new("http://localhost:8983/solr/collection1/select?q=1:*").unwrap();
    let second_query =
        SolrQuery::new("http://localhost:8983/solr/collection1/select?q=2:*").unwrap();

    let negation = first_query.inverse();
    let negation_url = negation.url.to_url_string();
    let negation_result = decode(&negation_url).unwrap();

    let negation_expected = "http://localhost:8983/solr/collection1/select?q=NOT+(1:*)";

    assert_eq!(negation_result, negation_expected);

    let inner_join = first_query.inner_join(&second_query).unwrap();
    let url_string = inner_join.url.to_url_string();
    let result = decode(&url_string).unwrap();

    let expected = "http://localhost:8983/solr/collection1/select?q=(1:*)+AND+(2:*)";
    assert_eq!(result, expected);

    let inverse_url_string = inner_join.inverse().url.to_url_string();
    let inverse_result = decode(&inverse_url_string).unwrap();
    let inverse_expected = "http://localhost:8983/solr/collection1/select?q=(1:*)+NOT+(2:*)";

    assert_eq!(inverse_result, inverse_expected);

    let third_query =
        SolrQuery::new("http://localhost:8983/solr/collection1/select?q=3:*").unwrap();

    let inner_join_query = first_query
        .inner_join(&second_query)
        .unwrap()
        .inner_join(&third_query)
        .unwrap();
    let url_string = inner_join_query.url.to_url_string();
    let result = decode(&url_string).unwrap();
    let expected = "http://localhost:8983/solr/collection1/select?q=((1:*)+AND+(2:*))+AND+(3:*)";

    assert_eq!(result, expected);

    let inverse_url_string = inner_join_query.inverse().url.to_url_string();
    let inverse_result = decode(&inverse_url_string).unwrap();
    let inverse_expected =
        "http://localhost:8983/solr/collection1/select?q=((1:*)+AND+(2:*))+NOT+(3:*)";

    assert_eq!(inverse_result, inverse_expected);

    let fourth_query =
        SolrQuery::new("http://localhost:8983/solr/collection1/select?q=4:*").unwrap();

    let inner_join_query = inner_join_query.inner_join(&fourth_query).unwrap();
    let url_string = inner_join_query.url.to_url_string();
    let result = decode(&url_string).unwrap();
    let expected =
        "http://localhost:8983/solr/collection1/select?q=(((1:*)+AND+(2:*))+AND+(3:*))+AND+(4:*)";

    assert_eq!(result, expected);

    let inverse_url_string = inner_join_query.inverse().url.to_url_string();
    let inverse_result = decode(&inverse_url_string).unwrap();
    let inverse_expected =
        "http://localhost:8983/solr/collection1/select?q=(((1:*)+AND+(2:*))+AND+(3:*))+NOT+(4:*)";

    assert_eq!(inverse_result, inverse_expected);
}

#[test]
fn should_not_inner_join_queries_with_differents_hosts() {
    let first_query =
        SolrQuery::new("http://localhost1:8983/solr/collection1/select?q=*:*").unwrap();
    let second_query =
        SolrQuery::new("http://localhost2:8983/solr/collection1/select?q=*:*").unwrap();

    let inner_join_query = first_query.inner_join(&second_query);

    assert_eq!(
        inner_join_query,
        Err(SolrSubqueryError::DifferentsHosts(
            Some("localhost1".into()),
            Some("localhost2".into())
        ))
    );
}

#[test]
fn should_not_inner_join_queries_with_differents_ports() {
    let first_query =
        SolrQuery::new("http://localhost:8983/solr/collection1/select?q=*:*").unwrap();
    let second_query =
        SolrQuery::new("http://localhost:8984/solr/collection1/select?q=*:*").unwrap();

    let inner_join_query = first_query.inner_join(&second_query);

    assert_eq!(
        inner_join_query,
        Err(SolrSubqueryError::DifferentsPorts(Some(8983), Some(8984)))
    );
}

#[test]
fn should_not_inner_join_queries_with_differents_paths() {
    let first_query =
        SolrQuery::new("http://localhost:8983/solr/collection1/select?q=*:*").unwrap();
    let second_query =
        SolrQuery::new("http://localhost:8983/solr/collection2/select?q=*:*").unwrap();

    let inner_join_query = first_query.inner_join(&second_query);

    assert_eq!(inner_join_query, Err(SolrSubqueryError::DifferentsPaths));
}

#[test]
fn should_not_inner_join_queries_without_q_param() {
    let first_query = SolrQuery::new("http://localhost:8983/solr/collection/select");
    assert_eq!(first_query, Err(SolrSubqueryError::MissingQQueryParameter));
}

#[test]
fn should_not_inner_join_queries_with_multiple_q_params() {
    let first_query = SolrQuery::new("http://localhost:8983/solr/collection/select?q=1&q=2");
    assert_eq!(first_query, Err(SolrSubqueryError::MultipleQQueryParameters));
}
