use dlcommon::disposition::{
    filename_from_disposition, filename_from_parts, find_param, Disposition, DispositionKind,
    FilenameError,
};
use dlcommon::http::{
    check_status, content_length, parse_u64, BuildError, Destination, DownloadError, FileDownload,
    Outcome, OverwriteBehaviour, Plan, RequestKind, UsagePref,
};

fn item(cd: UsagePref, filename: Option<&str>) -> FileDownload {
    let mut b = FileDownload::builder()
        .url("http://example.test/f".to_string())
        .target(b"/tmp/out".to_vec())
        .filename_use_content_disposition(cd);
    if let Some(f) = filename {
        b = b.filename(f.to_string());
    }
    b.build().unwrap()
}

fn with_overwrite(o: OverwriteBehaviour) -> FileDownload {
    FileDownload::builder()
        .url("http://example.test/f".to_string())
        .target(b"/tmp/out/f.bin".to_vec())
        .overwrite(o)
        .build()
        .unwrap()
}

#[test]
fn parse_u64_cases() {
    assert_eq!(parse_u64(b"123"), Some(123));
    assert_eq!(parse_u64(b"+5"), Some(5));
    assert_eq!(parse_u64(b"007"), Some(7));
    assert_eq!(parse_u64(b"18446744073709551615"), Some(u64::MAX));
    assert_eq!(parse_u64(b"18446744073709551616"), None);
    assert_eq!(parse_u64(b"99999999999999999999"), None);
    assert_eq!(parse_u64(b""), None);
    assert_eq!(parse_u64(b"+"), None);
    assert_eq!(parse_u64(b"-1"), None);
    assert_eq!(parse_u64(b"12a"), None);
    assert_eq!(parse_u64(b" 12"), None);
}

#[test]
fn content_length_errors() {
    assert_eq!(content_length(None), Err(DownloadError::MissingContentLength));
    assert_eq!(content_length(Some(b"abc")), Err(DownloadError::InvalidContentLength));
    assert_eq!(content_length(Some(b"4096")), Ok(4096));
}

#[test]
fn status_must_be_2xx() {
    assert_eq!(check_status(200, false), Ok(()));
    assert_eq!(check_status(204, true), Ok(()));
    assert_eq!(
        check_status(404, true),
        Err(DownloadError::Status { preflight: true, status: 404 })
    );
    assert_eq!(
        check_status(302, false),
        Err(DownloadError::Status { preflight: false, status: 302 })
    );
    assert_eq!(
        check_status(199, false),
        Err(DownloadError::Status { preflight: false, status: 199 })
    );
}

#[test]
fn disposition_plain_filename() {
    assert_eq!(filename_from_disposition("attachment; filename=\"f.bin\""), Ok("f.bin".to_string()));
    assert_eq!(filename_from_disposition("attachment; filename=a%20b.txt"), Ok("a b.txt".to_string()));
}

#[test]
fn disposition_extended_filename_first() {
    assert_eq!(
        filename_from_disposition("attachment; filename=\"plain.txt\"; filename*=UTF-8''na%C3%AFve.txt"),
        Ok("na\u{ef}ve.txt".to_string())
    );
}

#[test]
fn disposition_errors() {
    assert_eq!(
        filename_from_disposition("inline; filename=\"f.bin\""),
        Err(FilenameError::NotAttachment)
    );
    assert_eq!(filename_from_disposition("attachment"), Err(FilenameError::NoFilename));
}

fn params(ps: &[(&str, &str)]) -> Vec<(String, String)> {
    ps.iter().map(|(k, v)| (k.to_string(), v.to_string())).collect()
}

#[test]
fn disposition_parts() {
    let d = Disposition {
        kind: DispositionKind::Attachment,
        params: params(&[("filename", "plain"), ("filename*", "UTF-8''x%41y")]),
    };
    assert_eq!(filename_from_parts(&d), Ok("xAy".to_string()));
    let d = Disposition {
        kind: DispositionKind::Attachment,
        params: params(&[("filename", "p%2Fq"), ("filename*", "ISO-8859-1''x")]),
    };
    assert_eq!(filename_from_parts(&d), Ok("p/q".to_string()));
    let d = Disposition { kind: DispositionKind::Attachment, params: params(&[("filename", "%FF")]) };
    assert_eq!(filename_from_parts(&d), Err(FilenameError::NoFilename));
    let d = Disposition { kind: DispositionKind::Attachment, params: params(&[("size", "3")]) };
    assert_eq!(filename_from_parts(&d), Err(FilenameError::NoFilename));
    let d = Disposition { kind: DispositionKind::Inline, params: params(&[("filename", "a")]) };
    assert_eq!(filename_from_parts(&d), Err(FilenameError::NotAttachment));
    let d = Disposition {
        kind: DispositionKind::Extension("x-attachment".to_string()),
        params: params(&[("filename", "a")]),
    };
    assert_eq!(filename_from_parts(&d), Err(FilenameError::NotAttachment));
}

#[test]
fn find_param_takes_first_match() {
    let ps = params(&[("a", "1"), ("filename", "f"), ("filename", "g")]);
    assert_eq!(find_param(&ps, &"filename".to_string()), Some("f".to_string()));
    assert_eq!(find_param(&ps, &"filename*".to_string()), None);
    assert_eq!(find_param(&Vec::new(), &"a".to_string()), None);
}

#[test]
fn lone_extended_parameter_is_decoded() {
    assert_eq!(
        filename_from_disposition("attachment; filename*=UTF-8''na%C3%AFve.txt"),
        Ok("na\u{ef}ve.txt".to_string())
    );
}

#[test]
fn header_takes_precedence_over_configured_name() {
    let d = item(UsagePref::Prefer, Some("configured.bin"));
    let h: &[u8] = b"attachment; filename=\"f.bin\"";
    assert_eq!(d.filename(Some(h)), Ok(Some("f.bin".to_string())));
    assert_eq!(d.destination(Some(h)), Ok(b"/tmp/out/f.bin".to_vec()));
    let r = item(UsagePref::Require, Some("configured.bin"));
    assert_eq!(r.destination(Some(h)), Ok(b"/tmp/out/f.bin".to_vec()));
}

#[test]
fn required_header_absent_is_error() {
    let d = item(UsagePref::Require, Some("configured.bin"));
    assert_eq!(d.filename(None), Err(DownloadError::MissingDisposition));
    assert_eq!(d.destination(None), Err(DownloadError::MissingDisposition));
}

#[test]
fn preferred_header_absent_falls_through() {
    let d = item(UsagePref::Prefer, Some("configured.bin"));
    assert_eq!(d.destination(None), Ok(b"/tmp/out/configured.bin".to_vec()));
    let d = item(UsagePref::Prefer, None);
    assert_eq!(d.filename(None), Ok(None));
    assert_eq!(d.destination(None), Ok(b"/tmp/out".to_vec()));
}

#[test]
fn rejected_header_is_ignored() {
    let d = item(UsagePref::Reject, Some("configured.bin"));
    let h: &[u8] = b"attachment; filename=\"f.bin\"";
    assert_eq!(d.destination(Some(h)), Ok(b"/tmp/out/configured.bin".to_vec()));
}

#[test]
fn bad_headers_are_errors() {
    let d = item(UsagePref::Prefer, None);
    let bad: &[u8] = &[0x61, 0xff, 0xfe];
    assert_eq!(d.filename(Some(bad)), Err(DownloadError::DispositionNotUtf8));
    let inline: &[u8] = b"inline";
    assert_eq!(
        d.filename(Some(inline)),
        Err(DownloadError::Disposition(FilenameError::NotAttachment))
    );
}

#[test]
fn final_url_source_is_unsupported() {
    let d = FileDownload::builder()
        .url("http://example.test/f".to_string())
        .target(b"/tmp/out".to_vec())
        .filename_use_final_url(UsagePref::Prefer)
        .filename("x".to_string())
        .build()
        .unwrap();
    assert_eq!(d.filename(None), Err(DownloadError::FinalUrlUnsupported));
}

#[test]
fn preflight_only_when_useful() {
    let plain = FileDownload::builder()
        .url("u".to_string())
        .target(b"t".to_vec())
        .preflight_head(true)
        .build()
        .unwrap();
    assert!(!plain.should_preflight());
    assert_eq!(plain.first_request(), RequestKind::Get);
    let named = FileDownload::builder()
        .url("u".to_string())
        .target(b"t".to_vec())
        .preflight_head(true)
        .filename_use_content_disposition(UsagePref::Prefer)
        .build()
        .unwrap();
    assert!(named.expect_filename());
    assert!(named.should_preflight());
    assert_eq!(named.first_request(), RequestKind::Head);
    let checked = FileDownload::builder()
        .url("u".to_string())
        .target(b"t".to_vec())
        .preflight_head(true)
        .overwrite(OverwriteBehaviour::CheckLength)
        .build()
        .unwrap();
    assert!(checked.should_preflight());
    let off = FileDownload::builder()
        .url("u".to_string())
        .target(b"t".to_vec())
        .overwrite(OverwriteBehaviour::CheckLength)
        .build()
        .unwrap();
    assert!(!off.should_preflight());
}

#[test]
fn overwrite_matrix() {
    let dest = Destination::File(10);
    assert_eq!(with_overwrite(OverwriteBehaviour::Never).plan(false, 20, dest), Ok(Plan::Existing));
    assert_eq!(
        with_overwrite(OverwriteBehaviour::Fail).plan(false, 20, dest),
        Err(DownloadError::AlreadyExists)
    );
    assert_eq!(
        with_overwrite(OverwriteBehaviour::Always).plan(true, 20, dest),
        Ok(Plan::Fetch { outcome: Outcome::Redownload(20), new_request: true, create_parent: false })
    );
    assert_eq!(
        with_overwrite(OverwriteBehaviour::CheckLength).plan(false, 10, dest),
        Ok(Plan::Existing)
    );
    assert_eq!(
        with_overwrite(OverwriteBehaviour::CheckLength).plan(false, 20, dest),
        Ok(Plan::Fetch { outcome: Outcome::Redownload(20), new_request: false, create_parent: false })
    );
}

#[test]
fn missing_and_odd_destinations() {
    let d = with_overwrite(OverwriteBehaviour::Never);
    assert_eq!(
        d.plan(true, 5, Destination::Missing),
        Ok(Plan::Fetch { outcome: Outcome::Download(5), new_request: true, create_parent: true })
    );
    assert_eq!(d.plan(false, 5, Destination::Other), Err(DownloadError::NotARegularFile));
}

#[test]
fn builder_requires_url_and_target() {
    assert_eq!(FileDownload::builder().target(b"t".to_vec()).build().err(), Some(BuildError::MissingUrl));
    assert_eq!(FileDownload::builder().url("u".to_string()).build().err(), Some(BuildError::MissingTarget));
    let d = FileDownload::builder()
        .url("u".to_string())
        .target(b"t".to_vec())
        .title("T".to_string())
        .build()
        .unwrap();
    assert_eq!(d.title, Some("T".to_string()));
    assert_eq!(d.overwrite, OverwriteBehaviour::Never);
    assert_eq!(d.filename_use_content_disposition, UsagePref::Reject);
    assert!(!d.preflight_head);
}

#[test]
fn enum_helpers() {
    assert!(OverwriteBehaviour::CheckLength.conditional());
    assert!(!OverwriteBehaviour::Always.conditional());
    assert!(UsagePref::Require.bool() && UsagePref::Require.strict());
    assert!(UsagePref::Prefer.bool() && !UsagePref::Prefer.strict());
    assert!(!UsagePref::Reject.bool());
    assert_eq!(OverwriteBehaviour::default(), OverwriteBehaviour::Never);
    assert_eq!(UsagePref::default(), UsagePref::Reject);
}

#[test]
fn response_checked_in_order() {
    let d = item(UsagePref::Require, None);
    let h: &[u8] = b"attachment; filename=\"f.bin\"";
    let n: &[u8] = b"12";
    assert_eq!(
        d.inspect_response(true, 404, None, None),
        Err(DownloadError::Status { preflight: true, status: 404 })
    );
    assert_eq!(d.inspect_response(false, 200, None, Some(h)), Err(DownloadError::MissingContentLength));
    assert_eq!(d.inspect_response(false, 200, Some(n), None), Err(DownloadError::MissingDisposition));
    assert_eq!(d.inspect_response(false, 200, Some(n), Some(h)), Ok((12, b"/tmp/out/f.bin".to_vec())));
}
