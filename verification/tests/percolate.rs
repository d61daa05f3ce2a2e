use elastic_conn::get_index_type;
use elastic_conn::get_index_type_id;
use elastic_conn::post_index_type;
use elastic_conn::post_index_type_id;
use elastic_conn::Method;

#[test]
fn post_index_type_id_formats_path() {
    let m = post_index_type_id(
        "http://localhost:9200",
        "idx",
        "doc",
        "42",
        String::from("{\"query\":{}}"),
    );
    assert_eq!(m.url, "http://localhost:9200/idx/doc/42/_percolate/count");
    assert_eq!(m.method, Method::Post);
    assert_eq!(m.body, "{\"query\":{}}");
    assert_eq!(m.token, 0);
}

#[test]
fn post_index_type_formats_path() {
    let m = post_index_type("http://localhost:9200", "idx", "doc", String::from("{}"));
    assert_eq!(m.url, "http://localhost:9200/idx/doc/_percolate/count");
    assert_eq!(m.method, Method::Post);
    assert_eq!(m.body, "{}");
}

#[test]
fn get_index_type_id_formats_path() {
    let m = get_index_type_id("http://localhost:9200", "idx", "doc", "42");
    assert_eq!(m.url, "http://localhost:9200/idx/doc/42/_percolate/count");
    assert_eq!(m.method, Method::Get);
    assert_eq!(m.body, "");
}

#[test]
fn get_index_type_formats_path() {
    let m = get_index_type("http://localhost:9200", "idx", "doc");
    assert_eq!(m.url, "http://localhost:9200/idx/doc/_percolate/count");
    assert_eq!(m.method, Method::Get);
    assert_eq!(m.body, "");
}

#[test]
fn empty_base_keeps_leading_slash() {
    let m = get_index_type("", "idx", "doc");
    assert_eq!(m.url, "/idx/doc/_percolate/count");
}
