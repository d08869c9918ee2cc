use airshare::download::{check_status, is_success, DownloadError};

#[test]
fn success_statuses() {
    assert!(is_success(200));
    assert!(is_success(204));
    assert!(is_success(299));
    assert!(!is_success(199));
    assert!(!is_success(300));
    assert!(!is_success(404));
    assert!(!is_success(500));
}

#[test]
fn status_check_failure_carries_status() {
    assert!(check_status(200, "200 OK".to_string()).is_ok());
    match check_status(404, "404 Not Found".to_string()) {
        Err(e @ DownloadError::Status { .. }) => {
            if let DownloadError::Status { code, .. } = &e {
                assert_eq!(*code, 404);
            }
            assert_eq!(e.message(), "HTTP error: 404 Not Found");
        }
        _ => panic!("expected a status failure"),
    }
}

#[test]
fn error_messages() {
    assert_eq!(DownloadError::Request("refused".to_string()).message(), "HTTP request failed: refused");
    assert_eq!(DownloadError::Body("reset".to_string()).message(), "Failed to read response: reset");
    assert_eq!(DownloadError::Create("denied".to_string()).message(), "Failed to create file: denied");
    assert_eq!(DownloadError::Write("full".to_string()).message(), "Failed to write file: full");
}
