use exetel_api::auth::{Authorization, Query as LoginQuery, Timestamp, Token};
use exetel_api::client::{query_address, Query, URL_PREFIX};
use exetel_api::customer::services::GetServices;
use exetel_api::http::{Header, Method, Request};
use exetel_api::json::Json;
use exetel_api::{ApiError, Client};

fn header(name: &str, value: &str) -> Header {
    Header::new(name, value.to_string())
}

fn client() -> Client {
    let answer =
        r#"{"tokenType":"Bearer","expiresIn":60,"accessToken":"t0k3n","refreshToken":"r","persistLogin":true}"#;
    Authorization::from_login(200, answer, Timestamp(0)).unwrap().into_client().unwrap()
}

#[test]
fn body_is_posted_as_json() {
    let body = Json::Object(vec![("name".to_string(), Json::Text("Home \"1\"".to_string()))]);
    assert_eq!(
        client().post("https://webservices.api.exetel.com.au/v1/service/7".to_string(), &body),
        Ok(Request {
            method: Method::Post,
            url: "https://webservices.api.exetel.com.au/v1/service/7".to_string(),
            headers: vec![
                header("content-type", "application/json"),
                header("accept", "application/json"),
                header("authorization", "Bearer t0k3n"),
            ],
            body: Some(r#"{"name":"Home \"1\""}"#.to_string()),
        })
    );
}

#[test]
fn address_is_fetched_as_plain_text() {
    let request = client().get("https://webservices.api.exetel.com.au/v1/x".to_string());
    assert_eq!(request.method, Method::Get);
    assert_eq!(request.url, "https://webservices.api.exetel.com.au/v1/x");
    assert_eq!(request.body, None);
    assert_eq!(
        request.headers,
        vec![
            header("content-type", "text/plain"),
            header("accept", "application/json"),
            header("authorization", "Bearer t0k3n"),
        ]
    );
}

#[test]
fn query_for_the_services_is_fetched_from_prefix_and_path() {
    assert_eq!(URL_PREFIX, "https://webservices.api.exetel.com.au/v1");
    let client = client();
    let request = client.query(&GetServices).unwrap();
    assert_eq!(request, client.get(format!("{}{}", URL_PREFIX, GetServices.path())));
    assert_eq!(Ok(request), client.services_request());
}

#[test]
fn address_of_a_query_is_the_prefix_and_its_path_as_a_url() {
    assert_eq!(
        query_address("/service"),
        Ok("https://webservices.api.exetel.com.au/v1/service".to_string())
    );
    assert_eq!(
        query_address("/ping?x=a b"),
        Ok("https://webservices.api.exetel.com.au/v1/ping?x=a%20b".to_string())
    );
    assert_eq!(query_address("/a/../b/./c"), Ok("https://webservices.api.exetel.com.au/v1/b/c".to_string()));
    assert_eq!(query_address("/../../x"), Ok("https://webservices.api.exetel.com.au/x".to_string()));
    assert_eq!(query_address(""), Ok("https://webservices.api.exetel.com.au/v1".to_string()));
    assert_eq!(query_address("/é"), Ok("https://webservices.api.exetel.com.au/v1/%C3%A9".to_string()));
    assert_eq!(GetServices.url(), query_address("/service"));
}

#[test]
fn response_is_read_by_the_query() {
    let client = client();
    let body = r#"{"broadband":{"data":[]},"mobile":{"data":[]},"phone":{"data":[]},"voip":{"data":[]}}"#;
    let services = client.response(&GetServices, body).unwrap().unwrap();
    assert_eq!(Ok(services), client.services(body));
    assert!(matches!(client.response(&GetServices, "{"), Err(ApiError::Decode)));
    assert!(matches!(client.response(&GetServices, "{}"), Err(ApiError::Decode)));
    assert!(matches!(client.response(&GetServices, "null"), Err(ApiError::Decode)));
}

#[test]
fn login_query_is_written_without_a_token_it_lacks() {
    let query = LoginQuery::new("user", "secret");
    assert_eq!(
        query,
        LoginQuery {
            access_token: None,
            password: "secret".to_string(),
            persist_login: false,
            username: "user".to_string(),
        }
    );
    assert_eq!(
        query.encode().to_text().unwrap(),
        r#"{"password":"secret","persistLogin":false,"username":"user"}"#
    );
    let again = LoginQuery {
        access_token: Some(Token::new("old".to_string())),
        password: "p".to_string(),
        persist_login: true,
        username: "u".to_string(),
    };
    assert_eq!(
        again.encode().to_text().unwrap(),
        r#"{"accessToken":"old","password":"p","persistLogin":true,"username":"u"}"#
    );
}
