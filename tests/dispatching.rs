use crowbook_zipper::dispatch::{
    interface_language, parse_output_flag, real_main, render_format, resolve_destination, verbosity,
    Destination,
    Format, OutputFlag, Verbosity,
};

#[test]
fn format_names_round_trip() {
    for f in [Format::Epub, Format::Pdf, Format::Tex, Format::Html, Format::Odt] {
        assert_eq!(Format::parse(&f.name()), Some(f));
    }
    assert_eq!(Format::parse("docx"), None);
    assert_eq!(Format::parse(""), None);
}

#[test]
fn option_key_of_format() {
    assert_eq!(Format::Pdf.option_key(), "output.pdf");
    assert_eq!(Format::Html.option_key(), "output.html");
}

#[test]
fn packaged_formats_need_a_workspace() {
    assert!(Format::Epub.needs_workspace());
    assert!(Format::Pdf.needs_workspace());
    assert!(Format::Odt.needs_workspace());
    assert!(!Format::Tex.needs_workspace());
    assert!(!Format::Html.needs_workspace());
}

#[test]
fn dash_means_standard_output() {
    let flag = parse_output_flag(Some("-"));
    assert!(matches!(flag, OutputFlag::Stdout));
    assert!(flag.option_update().is_none());
    let d = resolve_destination(&flag, Some("book.pdf".to_string()));
    assert!(matches!(d, Destination::Stdout));
}

#[test]
fn explicit_path_is_stored_then_used() {
    let flag = parse_output_flag(Some("out.pdf"));
    let stored = flag.option_update().unwrap();
    assert_eq!(stored, "out.pdf");
    match resolve_destination(&flag, Some("/book/out.pdf".to_string())) {
        Destination::File(p) => assert_eq!(p, "/book/out.pdf"),
        Destination::Stdout => panic!("expected a file"),
    }
}

#[test]
fn no_flag_and_no_configured_path_means_stdout() {
    let flag = parse_output_flag(None);
    assert!(matches!(flag, OutputFlag::Absent));
    assert!(matches!(resolve_destination(&flag, None), Destination::Stdout));
}

#[test]
fn no_flag_uses_configured_path() {
    let flag = parse_output_flag(None);
    match resolve_destination(&flag, Some("book.epub".to_string())) {
        Destination::File(p) => assert_eq!(p, "book.epub"),
        Destination::Stdout => panic!("expected a file"),
    }
}

#[test]
fn verbosity_precedence() {
    assert_eq!(verbosity(true, true, true), Verbosity::Debug);
    assert_eq!(verbosity(false, true, true), Verbosity::Warning);
    assert_eq!(verbosity(false, false, true), Verbosity::Quiet);
    assert_eq!(verbosity(false, false, false), Verbosity::Info);
}

#[test]
fn language_from_locale() {
    assert_eq!(interface_language("fr_FR.UTF-8"), "fr");
    assert_eq!(interface_language("en_US.UTF-8"), "en");
    assert_eq!(interface_language("f"), "en");
    assert_eq!(interface_language(""), "en");
}

#[test]
fn termination_of_a_run() {
    let ok = real_main(Ok(()));
    assert_eq!(ok.status, 0);
    assert!(ok.error.is_none());
    let failed = real_main(Err("no book".to_string()));
    assert_eq!(failed.status, 1);
    assert_eq!(failed.error, Some("no book".to_string()));
}

#[test]
fn render_plan_of_a_packaged_format() {
    let flag = parse_output_flag(Some("book.odt"));
    let plan = render_format(Format::Odt, &flag, flag.option_update());
    assert!(plan.packaged);
    match plan.destination {
        Destination::File(p) => assert_eq!(p, "book.odt"),
        Destination::Stdout => panic!("expected a file"),
    }
}

#[test]
fn render_plan_of_a_direct_format_to_stdout() {
    let flag = parse_output_flag(Some("-"));
    let plan = render_format(Format::Html, &flag, Some("book.html".to_string()));
    assert!(!plan.packaged);
    assert!(matches!(plan.destination, Destination::Stdout));
}
