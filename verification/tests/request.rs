use anistats::request::{query_for, request_body, wrap_query, ENDPOINT, QUERY_HEAD, QUERY_TAIL};

#[test]
fn the_query_names_the_user() {
    let query = query_for("Moskas");
    assert!(query
        .starts_with("\n{\n  User(name: \"Moskas\") {\n      name\n        statistics {\n"));
    assert!(query.ends_with("      }\n    }\n}\n"));
    assert_eq!(query, format!("{}{}{}", QUERY_HEAD, "Moskas", QUERY_TAIL));
}

#[test]
fn the_query_asks_for_every_field_of_the_report() {
    let query = query_for("x");
    for field in [
        "name",
        "statistics",
        "manga",
        "anime",
        "count",
        "chaptersRead",
        "volumesRead",
        "minutesWatched",
        "episodesWatched",
        "genres",
        "genre",
        "statuses",
        "status",
    ] {
        assert!(query.contains(field));
    }
}

#[test]
fn the_name_is_put_in_as_it_is() {
    assert_eq!(query_for(""), format!("{}{}", QUERY_HEAD, QUERY_TAIL));
    assert_eq!(query_for("$name"), format!("{}$name{}", QUERY_HEAD, QUERY_TAIL));
}

#[test]
fn a_query_is_wrapped_in_an_object() {
    assert_eq!(wrap_query("\"q\""), "{\"query\":\"q\"}");
    assert_eq!(wrap_query(""), "{\"query\":}");
}

#[test]
fn the_request_body_holds_the_query_as_a_json_string() {
    let body = request_body("Moskas");
    assert!(body.starts_with("{\"query\":\"\\n{\\n  User(name: \\\"Moskas\\\") {\\n      name\\n"));
    assert!(body.ends_with("\\n}\\n\"}"));
    assert!(!body.contains('\n'));
}

#[test]
fn the_request_body_reads_back_as_the_query() {
    for name in ["Moskas", "", "back\\slash", "quo\"te", "tab\there", "snow ☃"] {
        let body = request_body(name);
        let value: serde_json::Value = serde_json::from_str(&body).unwrap();
        let object = value.as_object().unwrap();
        assert_eq!(object.len(), 1);
        assert_eq!(object.get("query").unwrap().as_str().unwrap(), query_for(name));
    }
}

#[test]
fn the_endpoint_is_the_graphql_service() {
    assert_eq!(ENDPOINT, "https://graphql.anilist.co/");
}
