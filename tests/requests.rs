use apicommand::configuration::Config;
use apicommand::database::{create_table_statement, insert_statement, row_from, row_of, Responses};
use apicommand::error::Error;
use apicommand::network::{
    accept_response, check_status, prepare_get, prepare_last_run, prepare_request, prepare_run,
    prepare_specific, RequestType, API_KEY_HEADER,
};
use apicommand::validate::GetParameters;

fn test_config() -> Config {
    Config::new(
        "https://httpbin.org/anything".to_string(),
        Some("API-TEST-KEY".to_string()),
        "test.sqlite3".to_string(),
    )
}

#[test]
fn get_test() {
    let config = test_config();
    let raw_brand_id = "test_brand_id";
    let request = prepare_get(&config, raw_brand_id.to_string()).unwrap();
    assert!(request.url == format!("{}/get/{}", &config.get_api_root(), raw_brand_id));
}

#[test]
fn last_run_test() {
    let config = test_config();
    let raw_brand_id = "test_brand_id";
    let raw_location_id = "test_location_id";
    let request =
        prepare_last_run(&config, raw_brand_id.to_string(), raw_location_id.to_string()).unwrap();
    assert!(
        request.url
            == format!("{}/last_run/{}/{}", &config.get_api_root(), raw_brand_id, raw_location_id)
    );
}

#[test]
fn run_test() {
    let config = test_config();
    let raw_brand_id = "test_brand_id";
    let raw_location_id = "test_location_id";
    let request =
        prepare_run(&config, raw_brand_id.to_string(), raw_location_id.to_string()).unwrap();
    assert!(
        request.url
            == format!("{}/run/{}/{}", &config.get_api_root(), raw_brand_id, raw_location_id)
    );
}

#[test]
fn specific_test() {
    let config = test_config();
    let raw_brand_id = "test_brand_id";
    let raw_location_id = "test_location_id";
    let raw_from_date = "100010001000";
    let raw_to_date = "100010001001";
    let request = prepare_specific(
        &config,
        raw_brand_id.to_string(),
        raw_location_id.to_string(),
        raw_from_date.to_string(),
        raw_to_date.to_string(),
    )
    .unwrap();
    assert!(
        request.url
            == format!(
                "{}/specific/{}/{}/{}/{}",
                &config.get_api_root(),
                raw_brand_id,
                raw_location_id,
                raw_from_date,
                raw_to_date,
            )
    );
}

#[test]
fn url_is_root_slash_path() {
    let config = Config::new("https://example.test/anything".to_string(), None, "db".to_string());
    let request = prepare_get(&config, "b1".to_string()).unwrap();
    assert_eq!(request.url, "https://example.test/anything/get/b1");
    assert!(request.api_key.is_none());
}

#[test]
fn key_is_carried() {
    let request = prepare_get(&test_config(), "b1".to_string()).unwrap();
    assert_eq!(request.api_key.as_deref(), Some("API-TEST-KEY"));
    assert_eq!(API_KEY_HEADER, "X-API-Key");
}

#[test]
fn key_with_control_character_is_rejected() {
    let config = Config::new("https://x".to_string(), Some("bad\nkey".to_string()), "db".to_string());
    assert!(matches!(
        prepare_get(&config, "b1".to_string()),
        Err(Error::NetworkInvalidHeaderValue)
    ));
    let config = Config::new("https://x".to_string(), Some("tab\tké".to_string()), "db".to_string());
    assert!(prepare_get(&config, "b1".to_string()).is_ok());
}

#[test]
fn failed_validation_prepares_nothing() {
    let config = Config::new("https://x".to_string(), Some("bad\nkey".to_string()), "db".to_string());
    let long = "z".repeat(65);
    assert!(matches!(
        prepare_get(&config, long.clone()),
        Err(Error::ValidateInvalidBrandId(_))
    ));
    assert!(matches!(
        prepare_specific(&config, "b".to_string(), "l".to_string(), "2".to_string(), "1".to_string()),
        Err(Error::ValidateInvalidDateTimeSpan(2, 1))
    ));
}

#[test]
fn only_status_200_is_accepted() {
    assert!(check_status(200).is_ok());
    match check_status(404) {
        Err(Error::NetworkUnexpectedStatusCode(s)) => assert_eq!(s, "404"),
        other => panic!("unexpected: {:?}", other),
    }
    match check_status(201) {
        Err(Error::NetworkUnexpectedStatusCode(s)) => assert_eq!(s, "201"),
        other => panic!("unexpected: {:?}", other),
    }
}

#[test]
fn accepted_response_keeps_fields() {
    let rt = RequestType::Get(GetParameters::new("b1".to_string()).unwrap());
    let r = accept_response(rt, 5, 200, "u".to_string(), "body".to_string()).unwrap();
    assert_eq!((r.date_time, r.status, r.url.as_str(), r.data.as_str()), (5, 200, "u", "body"));
    let rt = RequestType::Get(GetParameters::new("b1".to_string()).unwrap());
    match accept_response(rt, 5, 500, "u".to_string(), "body".to_string()) {
        Err(Error::NetworkUnexpectedStatusCode(s)) => assert_eq!(s, "500"),
        other => panic!("unexpected: {:?}", other),
    }
}

#[test]
fn request_type_tags_and_paths() {
    let config = test_config();
    let q = prepare_run(&config, "a".to_string(), "b".to_string()).unwrap();
    assert_eq!(q.request_type.tag(), "Run");
    assert_eq!(q.request_type.path(), "run/a/b");
    let rt = RequestType::Get(GetParameters::new("g".to_string()).unwrap());
    let q = prepare_request(&config, rt).unwrap();
    assert_eq!(q.request_type.tag(), "Get");
}

#[test]
fn stored_row_projects_response() {
    let rt = RequestType::Get(GetParameters::new("b1".to_string()).unwrap());
    let r = accept_response(rt, 947638923004, 200, "https://e/get/b1".to_string(), "{}".to_string())
        .unwrap();
    let row = row_of(&r).unwrap();
    assert_eq!(row.date_time, "2000-01-12T01:02:03.004Z");
    assert_eq!(row.request_type, "Get");
    assert_eq!(row.url, "https://e/get/b1");
    assert_eq!(row.data, "{}");
    let row = row_from("t".to_string(), &r);
    assert_eq!(row.date_time, "t");
}

#[test]
fn table_and_column_names() {
    assert_eq!(Responses::Table.name(), "responses");
    assert_eq!(Responses::DateTime.name(), "date_time");
    assert_eq!(Responses::RequestType.name(), "request_type");
    assert_eq!(Responses::Id.name(), "id");
    assert_eq!(Responses::Url.name(), "url");
    assert_eq!(Responses::Data.name(), "data");
}

#[test]
fn far_timestamps_still_render() {
    let rt = RequestType::Get(GetParameters::new("b1".to_string()).unwrap());
    let r = accept_response(rt, -8_000_000_000_000_000, 200, "u".to_string(), "d".to_string())
        .unwrap();
    assert!(row_of(&r).is_some());
    let rt = RequestType::Get(GetParameters::new("b1".to_string()).unwrap());
    let r = accept_response(rt, 8_000_000_000_000_000, 200, "u".to_string(), "d".to_string())
        .unwrap();
    assert!(row_of(&r).is_some());
}

#[test]
fn create_table_statement_is_idempotent_sql() {
    let sql = create_table_statement();
    assert_eq!(
        sql,
        r#"CREATE TABLE IF NOT EXISTS "responses" ( "id" integer NOT NULL PRIMARY KEY, "date_time" text NOT NULL, "request_type" text NOT NULL, "url" text NOT NULL, "data" text NOT NULL )"#
    );
    for col in ["\"id\"", "\"date_time\"", "\"request_type\"", "\"url\"", "\"data\""] {
        assert!(sql.contains(col), "{}", sql);
    }
    assert_eq!(sql, create_table_statement());
}

#[test]
fn insert_statement_binds_row() {
    let rt = RequestType::Get(GetParameters::new("b1".to_string()).unwrap());
    let r = accept_response(rt, 0, 200, "https://e/get/b1".to_string(), "{}".to_string()).unwrap();
    let row = row_of(&r).unwrap();
    assert_eq!(row.date_time, "1970-01-01T00:00:00.000Z");
    let (sql, values) = insert_statement(&row);
    assert_eq!(
        sql,
        r#"INSERT INTO "responses" ("date_time", "request_type", "url", "data") VALUES (?, ?, ?, ?)"#
    );
    assert_eq!(values, vec![row.date_time.clone(), "Get".to_string(), row.url.clone(), row.data.clone()]);
    assert_eq!(values[2], "https://e/get/b1");
    assert_eq!(values[3], "{}");
}
