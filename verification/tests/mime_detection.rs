use docpipe::mime::detect_mime_type;

#[test]
fn known_extensions_map_to_registered_types() {
    assert_eq!(detect_mime_type("report.pdf"), "application/pdf");
    assert_eq!(detect_mime_type("notes.txt"), "text/plain");
    assert_eq!(detect_mime_type("scan.png"), "image/png");
}

#[test]
fn unknown_extension_falls_back_to_octet_stream() {
    assert_eq!(detect_mime_type("blob.zzzyx"), "application/octet-stream");
}

#[test]
fn missing_extension_falls_back_to_octet_stream() {
    assert_eq!(detect_mime_type("uploaded_file"), "application/octet-stream");
}
