use openstack::error::{status_error, Error, ErrorKind};

#[test]
fn http_status_classification() {
    assert_eq!(status_error(200), None);
    assert_eq!(status_error(204), None);
    assert_eq!(status_error(299), None);
    assert_eq!(status_error(404), Some(ErrorKind::ResourceNotFound));
    assert_eq!(status_error(500), Some(ErrorKind::TransportError));
    assert_eq!(status_error(301), Some(ErrorKind::TransportError));
}

#[test]
fn endpoint_not_found_names_service() {
    let e = Error::new_endpoint_not_found("image".to_string());
    assert_eq!(e.kind(), ErrorKind::EndpointNotFound);
    assert_eq!(e.detail, "image");
}
