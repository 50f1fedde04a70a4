use supabase_storage::client::StorageClient;
use supabase_storage::errors::ClientError;
use supabase_storage::mime::MimeType;
use supabase_storage::models::{
    BucketResponse, CopyFileResponse, CreateBucketResponse, DownloadOptions, ObjectResponse,
    SignedUrlResponse, TransformOptions,
};
use supabase_storage::responses::{
    copy_file_response, create_bucket_response, decode_response, delete_bucket_response,
    download_file_response, message_response, signed_upload_url_response,
};
use supabase_storage::url::{build_url_with_options, extract_token};

fn client() -> StorageClient {
    StorageClient::new("https://demo.supabase.co".to_string(), "key123".to_string())
}

fn service_error(e: ClientError) -> (u16, String) {
    match e {
        ClientError::StorageError { status, message } => (status, message),
        other => panic!("expected a service error, got {:?}", other),
    }
}

#[test]
fn mime_strings() {
    assert_eq!(MimeType::PNG.as_str(), "image/png");
    assert_eq!(MimeType::WAV.as_str(), "audio/wav");
    assert_eq!(
        MimeType::DOCX.as_str(),
        "application/vnd.openxmlformats-officedocument.wordprocessingml.document"
    );
    assert_eq!(MimeType::Custom("image/*").as_str(), "image/*");
    assert_eq!(MimeType::Custom("").as_str(), "");
    for m in [MimeType::AAC, MimeType::SevenZip, MimeType::ThreeGPP2, MimeType::JSONLD, MimeType::XUL] {
        let s = m.as_str();
        assert_eq!(s.matches('/').count(), 1);
        assert!(!s.starts_with('/') && !s.ends_with('/'));
    }
}

#[test]
fn create_bucket_answer_gives_name() {
    let decoded = CreateBucketResponse { name: "test_delete_bucket".to_string() };
    let r = create_bucket_response(200, "{\"name\":\"test_delete_bucket\"}".to_string(), Some(decoded));
    assert_eq!(r.unwrap(), "test_delete_bucket");
}

#[test]
fn undecodable_success_body_is_a_service_error() {
    let r = create_bucket_response(200, "<html>".to_string(), None);
    assert_eq!(service_error(r.unwrap_err()), (200, "<html>".to_string()));
}

#[test]
fn failure_status_is_a_service_error_even_with_a_decodable_body() {
    let decoded = BucketResponse { message: "Successfully emptied".to_string() };
    let body = "{\"message\":\"Successfully emptied\"}".to_string();
    let r = message_response(400, body.clone(), Some(decoded));
    assert_eq!(service_error(r.unwrap_err()), (400, body));
}

#[test]
fn message_answer() {
    let decoded = BucketResponse { message: "Successfully moved".to_string() };
    let r = message_response(200, String::new(), Some(decoded));
    assert_eq!(r.unwrap(), "Successfully moved");
}

#[test]
fn delete_twice_surfaces_not_found() {
    assert!(delete_bucket_response(200, "{\"message\":\"Successfully deleted\"}".to_string()).is_ok());
    let body = "{\"statusCode\":\"404\",\"error\":\"Bucket not found\"}".to_string();
    let r = delete_bucket_response(404, body.clone());
    assert_eq!(service_error(r.unwrap_err()), (404, body));
}

#[test]
fn copy_answer_gives_key() {
    let decoded = CopyFileResponse { key: "B/y.txt".to_string() };
    let r = copy_file_response(200, "{\"Key\":\"B/y.txt\"}".to_string(), Some(decoded));
    assert_eq!(r.unwrap(), "B/y.txt");
}

#[test]
fn decode_passes_value_through() {
    let obj = ObjectResponse { id: "1".to_string(), key: "upload_tests/tests/Upload".to_string() };
    let r = decode_response(201, String::new(), Some(obj)).unwrap();
    assert_eq!(r.key, "upload_tests/tests/Upload");
    let empty: Vec<u8> = Vec::new();
    let listed = decode_response(200, "[]".to_string(), Some(empty)).unwrap();
    assert!(listed.is_empty());
    let r: Result<Vec<u8>, ClientError> = decode_response(299, "x".to_string(), None);
    assert_eq!(service_error(r.unwrap_err()), (299, "x".to_string()));
    let r = decode_response(300, "moved".to_string(), Some(1u8));
    assert_eq!(service_error(r.unwrap_err()), (300, "moved".to_string()));
    let r = decode_response(199, "early".to_string(), Some(1u8));
    assert_eq!(service_error(r.unwrap_err()), (199, "early".to_string()));
}

#[test]
fn download_answers() {
    let ok = download_file_response(200, b"updated byte array".to_vec()).unwrap();
    assert_eq!(ok, b"updated byte array".to_vec());
    let r = download_file_response(404, vec![b'n', b'o', 0xff, b'!']);
    assert_eq!(service_error(r.unwrap_err()), (404, "no\u{fffd}!".to_string()));
}

#[test]
fn signed_urls_are_prefixed() {
    let c = client();
    let one = SignedUrlResponse { signed_url: "/object/sign/list_files/3.txt?token=t".to_string() };
    assert_eq!(
        c.signed_url_response(200, String::new(), Some(one)).unwrap(),
        "https://demo.supabase.co/storage/v1/object/sign/list_files/3.txt?token=t"
    );
    let many = vec![
        SignedUrlResponse { signed_url: "/a".to_string() },
        SignedUrlResponse { signed_url: "/b".to_string() },
        SignedUrlResponse { signed_url: "/c".to_string() },
    ];
    let urls = c.multiple_signed_urls_response(200, String::new(), Some(many)).unwrap();
    assert_eq!(
        urls,
        vec![
            "https://demo.supabase.co/storage/v1/a".to_string(),
            "https://demo.supabase.co/storage/v1/b".to_string(),
            "https://demo.supabase.co/storage/v1/c".to_string(),
        ]
    );
    let r = c.signed_url_response(500, "boom".to_string(), None);
    assert_eq!(service_error(r.unwrap_err()), (500, "boom".to_string()));
}

#[test]
fn signed_upload_answer_carries_token() {
    let url = "/object/upload/sign/list_files/42.txt?token=abc.def".to_string();
    let r = signed_upload_url_response(200, String::new(), Some(url.clone())).unwrap();
    assert_eq!(r.url, url);
    assert_eq!(r.token, "abc.def");
    let r = signed_upload_url_response(200, String::new(), Some("/object/upload".to_string()));
    assert!(matches!(r, Err(ClientError::InvalidToken { .. })));
    let r = signed_upload_url_response(403, "denied".to_string(), None);
    assert_eq!(service_error(r.unwrap_err()), (403, "denied".to_string()));
}

#[test]
fn tokens_are_found_in_the_query() {
    assert_eq!(extract_token("/sign/b/p?token=abc").unwrap(), "abc");
    assert_eq!(extract_token("https://x/y?a=1&token=xyz&b=2").unwrap(), "xyz");
    assert_eq!(extract_token("u?token=").unwrap(), "");
    assert_eq!(extract_token("u?a=1&&token=q?token=z").unwrap(), "q");
    assert!(matches!(
        extract_token("no-query"),
        Err(ClientError::InvalidToken { message }) if message == "No token found in URL"
    ));
    assert!(matches!(extract_token("u?a=1&b=2"), Err(ClientError::InvalidToken { .. })));
    assert!(matches!(extract_token("u?x?token=1"), Err(ClientError::InvalidToken { .. })));
    assert!(matches!(extract_token("u?tokens=1"), Err(ClientError::InvalidToken { .. })));
}

#[test]
fn public_url_without_options() {
    let url = client().get_public_url("list_files", "1.txt", None).unwrap();
    assert_eq!(url, "https://demo.supabase.co/storage/v1/object/public/list_files/1.txt");
}

#[test]
fn public_url_with_transform_uses_render_path() {
    let options = DownloadOptions {
        transform: Some(TransformOptions {
            width: Some(300),
            height: Some(200),
            resize: Some("contain"),
            format: Some("origin"),
            quality: Some(80),
        }),
        download: Some(true),
    };
    let url = client().get_public_url("photos", "vacations/beach.jpg", Some(options)).unwrap();
    assert_eq!(
        url,
        "https://demo.supabase.co/storage/v1/render/image/public/photos/vacations/beach.jpg?height=200&width=300&format=origin&quality=80&resize=contain&download=true"
    );
}

#[test]
fn public_url_drops_unknown_resize() {
    let options = DownloadOptions {
        transform: Some(TransformOptions {
            width: Some(300),
            height: None,
            resize: Some("stretch"),
            format: None,
            quality: None,
        }),
        download: None,
    };
    let url = client().get_public_url("photos", "a b.jpg", Some(options)).unwrap();
    assert_eq!(
        url,
        "https://demo.supabase.co/storage/v1/render/image/public/photos/a%20b.jpg?width=300"
    );
}

#[test]
fn public_url_download_without_transform() {
    let options = DownloadOptions { transform: None, download: Some(true) };
    let url = client().get_public_url("photos", "x.png", Some(options)).unwrap();
    assert_eq!(url, "https://demo.supabase.co/storage/v1/object/public/photos/x.png?download=true");
}

#[test]
fn unparsable_base_is_a_url_error() {
    let options = DownloadOptions { transform: None, download: None };
    let r = build_url_with_options("not a url", &options);
    assert!(matches!(r, Err(ClientError::UrlParseError { message }) if message == "Failed to parse Url"));
    let bad = StorageClient::new("demo".to_string(), "k".to_string());
    let r = bad.get_public_url("b", "p", Some(DownloadOptions { transform: None, download: None }));
    assert!(matches!(r, Err(ClientError::UrlParseError { .. })));
}
