use filedrop::handlers::{
    download_failure, finish_upload, help, is_valid_name, plan_download, plan_upload, upload_reply,
    Status,
    BANNER_RULE,
};
use filedrop::settings::{Settings, Variable};

fn defaults() -> Settings {
    Settings::from_env(&Vec::new())
}

fn with_limit(limit: &str) -> Settings {
    Settings::from_env(&vec![(Variable::SIZE_LIMIT_KEY.to_string(), limit.to_string())])
}

#[test]
fn status_codes() {
    assert_eq!(Status::Success.code(), 200);
    assert_eq!(Status::Created.code(), 201);
    assert_eq!(Status::BadRequest.code(), 400);
    assert_eq!(Status::NotFound.code(), 404);
    assert_eq!(Status::PayloadTooLarge.code(), 413);
    assert_eq!(Status::InternalServerError.code(), 500);
}

#[test]
fn banner_rule_is_eighty_characters() {
    assert_eq!(BANNER_RULE.len(), 80);
}

#[test]
fn valid_names() {
    assert!(is_valid_name("report.pdf"));
    assert!(is_valid_name("..."));
    assert!(is_valid_name(".hidden"));
    assert!(is_valid_name("a..b"));
    assert!(!is_valid_name(""));
    assert!(!is_valid_name("."));
    assert!(!is_valid_name(".."));
    assert!(!is_valid_name("../etc/passwd"));
    assert!(!is_valid_name("a/b"));
    assert!(!is_valid_name("a\\b"));
}

#[test]
fn upload_reply_embeds_retrieval_command() {
    let reply = upload_reply(&defaults(), "0123456789AB-x.txt");
    let expected = format!(
        "\n\n{}\n\ncurl -O http://localhost:8000/get/0123456789AB-x.txt\n\n{}\n\n",
        BANNER_RULE, BANNER_RULE
    );
    assert_eq!(reply, expected);
}

#[test]
fn upload_reply_omits_port_80() {
    let s = Settings::from_env(&vec![
        (Variable::HOST_KEY.to_string(), "drop.example".to_string()),
        (Variable::PUBLIC_PORT_KEY.to_string(), "80".to_string()),
    ]);
    let reply = upload_reply(&s, "N-f");
    assert!(reply.contains("curl -O http://drop.example/get/N-f\n"));
}

#[test]
fn oversized_body_is_refused() {
    let s = with_limit("10");
    match plan_upload(&s, "f.txt", 11) {
        Err(reply) => {
            assert_eq!(reply.status, Status::PayloadTooLarge);
            assert_eq!(reply.status.code(), 413);
            assert_eq!(reply.body, "Error: File too large.\n");
        }
        Ok(_) => panic!("an oversized body was accepted"),
    }
}

#[test]
fn oversized_body_is_refused_even_with_bad_name() {
    let s = with_limit("0");
    let r = plan_upload(&s, "../x", 1);
    assert!(matches!(r, Err(ref reply) if reply.status == Status::PayloadTooLarge));
}

#[test]
fn body_at_the_limit_is_accepted() {
    let s = with_limit("10");
    let name = plan_upload(&s, "f.txt", 10).ok().expect("accepted");
    assert!(name.ends_with("-f.txt"));
    assert_eq!(name.len(), 12 + 1 + 5);
}

#[test]
fn unsafe_name_is_refused() {
    for name in ["", ".", "..", "../secret", "dir/file", "dir\\file"] {
        match plan_upload(&defaults(), name, 3) {
            Err(reply) => {
                assert_eq!(reply.status, Status::BadRequest);
                assert_eq!(reply.body, "Error: Invalid file name.\n");
            }
            Ok(_) => panic!("unsafe name accepted"),
        }
    }
}

#[test]
fn failed_write_is_a_generic_server_error() {
    let reply = finish_upload(&defaults(), "0123456789AB-x", false);
    assert_eq!(reply.status, Status::InternalServerError);
    assert_eq!(reply.status.code(), 500);
    assert_eq!(reply.body, "Error: Failed to upload file.\n");
}

#[test]
fn successful_write_is_created() {
    let reply = finish_upload(&defaults(), "0123456789AB-x", true);
    assert_eq!(reply.status, Status::Created);
    assert_eq!(reply.body, upload_reply(&defaults(), "0123456789AB-x"));
}

#[test]
fn missing_download_is_not_found() {
    let reply = download_failure();
    assert_eq!(reply.status, Status::NotFound);
    assert_eq!(reply.status.code(), 404);
    assert_eq!(reply.body, "Not found.\n");
}

#[test]
fn help_shows_upload_command() {
    let reply = help(&defaults());
    assert_eq!(reply.status, Status::BadRequest);
    assert_eq!(reply.status.code(), 400);
    assert_eq!(reply.body, "Use `curl -T localhost:8000` to upload files.\n");
}

#[test]
fn report_upload_scenario() {
    let settings = defaults();
    let body = b"%PDF-1.4...";
    let storage_name = plan_upload(&settings, "report.pdf", body.len()).ok().expect("accepted");
    assert!(storage_name.ends_with("-report.pdf"));
    let reply = finish_upload(&settings, &storage_name, true);
    assert_eq!(reply.status.code(), 201);
    let command = format!("curl -O http://localhost:8000/get/{}", storage_name);
    assert!(reply.body.contains(&command));
    assert!(is_valid_name(&storage_name));
    assert!(!is_valid_name("nonexistent/.."));
    assert_eq!(download_failure().status.code(), 404);
}

#[test]
fn download_plan_refuses_unsafe_names() {
    assert!(plan_download("0123456789AB-report.pdf").is_ok());
    for name in ["", ".", "..", "../etc/passwd", "a/b", "a\\b"] {
        match plan_download(name) {
            Err(reply) => {
                assert_eq!(reply.status.code(), 404);
                assert_eq!(reply.body, "Not found.\n");
            }
            Ok(()) => panic!("unsafe name accepted"),
        }
    }
}
