use traewelling_rss::errors::Error;

#[test]
fn each_error_has_its_message() {
    assert_eq!(Error::InternalServerError.message(), "Internal server error");
    assert_eq!(Error::TraewellingConnectionError.message(), "Traewelling connection error");
}

#[test]
fn every_error_is_answered_with_status_500() {
    let internal = Error::InternalServerError.into_response();
    assert_eq!(internal.status, 500);
    assert_eq!(internal.body, "Internal server error");
    assert_eq!(internal.content_type, None);
    assert_eq!(internal.location, None);
    let upstream = Error::TraewellingConnectionError.into_response();
    assert_eq!(upstream.status, 500);
    assert_eq!(upstream.body, "Traewelling connection error");
    assert_eq!(upstream.content_type, None);
    assert_eq!(upstream.location, None);
}
