use iitkgp_erp_login::errors::ErpError;
use iitkgp_erp_login::extract::extract;
use iitkgp_erp_login::session::Session;

#[test]
fn token_present_is_extracted() {
    let session = Session::new(None, None, None);
    let homepage = r#"<html><body>
        <form><input type="hidden" id="sessionToken" value="abc123"/></form>
    </body></html>"#;
    let token = session.get_sessiontoken(homepage).unwrap();
    assert_eq!(token, Some(String::from("abc123")));
}

#[test]
fn token_missing_element_is_absent_not_error() {
    let session = Session::new(None, None, None);
    let homepage = "<html><body><p>Welcome</p></body></html>";
    let token = session.get_sessiontoken(homepage).unwrap();
    assert_eq!(token, None);
}

#[test]
fn token_element_without_value_attribute_is_absent() {
    let session = Session::new(None, None, None);
    let homepage = r#"<html><body><input id="sessionToken"/></body></html>"#;
    let token = session.get_sessiontoken(homepage).unwrap();
    assert_eq!(token, None);
}

#[test]
fn first_matching_element_wins() {
    let session = Session::new(None, None, None);
    let homepage = r#"<html><body>
        <input id="sessionToken" value="first"/>
        <input id="sessionToken" value="second"/>
    </body></html>"#;
    let token = session.get_sessiontoken(homepage).unwrap();
    assert_eq!(token, Some(String::from("first")));
}

#[test]
fn empty_document_is_absent() {
    let session = Session::new(None, None, None);
    let token = session.get_sessiontoken("").unwrap();
    assert_eq!(token, None);
}

#[test]
fn extract_reads_named_attribute() {
    let document = r#"<html><body><a class="entry" href="/portal">go</a></body></html>"#;
    let value = extract(document, "a.entry", "href").unwrap();
    assert_eq!(value, Some(String::from("/portal")));
}

#[test]
fn malformed_selector_is_a_parse_error() {
    let document = "<html><body></body></html>";
    let result = extract(document, "###", "value");
    assert_eq!(result, Err(ErpError::Parse));
}

#[test]
fn empty_selector_is_a_parse_error() {
    let result = extract("<html></html>", "", "value");
    assert_eq!(result, Err(ErpError::Parse));
}
