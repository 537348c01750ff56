use crowbook_zipper::error::ErrorKind;
use crowbook_zipper::zipper::{WriteReport, Zipper};

fn expect_error<T>(r: Result<T, crowbook_zipper::error::ZipperError>, kind: ErrorKind, subject: &str) {
    match r {
        Ok(_) => panic!("expected an error"),
        Err(e) => {
            assert_eq!(e.kind, kind);
            assert_eq!(e.subject, subject);
        }
    }
}

#[test]
fn new_workspace_is_named_by_a_simple_uuid() {
    let z = Zipper::new("/tmp/books");
    let id = z.id().to_string();
    assert_eq!(id.len(), 32);
    assert!(id.chars().all(|c| c.is_ascii_digit() || ('a'..='f').contains(&c)));
    assert_eq!(z.root(), format!("/tmp/books/{}", id));
    assert!(z.args().is_empty());
}

#[test]
fn new_workspace_with_trailing_separator() {
    let z = Zipper::new("/tmp/");
    assert_eq!(z.root(), format!("/tmp/{}", z.id()));
}

#[test]
fn two_workspaces_get_different_roots() {
    let a = Zipper::new("/tmp");
    let b = Zipper::new("/tmp");
    assert_ne!(a.root(), b.root());
}

#[test]
fn staging_a_chapter_records_it() {
    let mut z = Zipper::new("/tmp/w");
    let content: &[u8] = b"<p>hi</p>";
    assert_eq!(content.len(), 9);
    let staged = z.stage("chapter1.xhtml").unwrap();
    assert_eq!(staged.file, "chapter1.xhtml");
    assert_eq!(staged.dest_file, format!("{}/chapter1.xhtml", z.root()));
    assert_eq!(staged.dest_dir, z.root());
    z.write("chapter1.xhtml", true, WriteReport::Written).unwrap();
    assert_eq!(z.args(), vec!["chapter1.xhtml".to_string()]);
}

#[test]
fn staging_a_parent_path_is_refused() {
    let mut z = Zipper::new("/tmp/w");
    expect_error(z.stage("../escape.txt"), ErrorKind::UnsafePath, "../escape.txt");
    expect_error(
        z.write("../escape.txt", true, WriteReport::Written),
        ErrorKind::UnsafePath,
        "../escape.txt",
    );
    assert!(z.args().is_empty());
}

#[test]
fn staging_an_absolute_path_is_refused() {
    let z = Zipper::new("/tmp/w");
    expect_error(z.stage("/etc/passwd"), ErrorKind::UnsafePath, "/etc/passwd");
}

#[test]
fn bare_parent_segment_is_refused() {
    let z = Zipper::new("/tmp/w");
    expect_error(z.stage(".."), ErrorKind::UnsafePath, "..");
}

#[test]
fn dotted_names_are_accepted() {
    let z = Zipper::new("/tmp/w");
    assert!(z.stage("..hidden").is_ok());
    assert!(z.stage("./a.txt").is_ok());
    assert!(z.stage(".").is_ok());
}

#[test]
fn nested_path_needs_its_directory() {
    let z = Zipper::new("/tmp/w");
    let staged = z.stage("OEBPS/text/ch1.xhtml").unwrap();
    assert_eq!(staged.dest_file, format!("{}/OEBPS/text/ch1.xhtml", z.root()));
    assert_eq!(staged.dest_dir, format!("{}/OEBPS/text", z.root()));
}

#[test]
fn write_failures_are_told_apart() {
    let mut z = Zipper::new("/tmp/w");
    let dir = format!("{}/META-INF", z.root());
    expect_error(z.write("META-INF/container.xml", true, WriteReport::DirFailed), ErrorKind::CreateDir, &dir);
    expect_error(z.write("a.txt", true, WriteReport::CreateFailed), ErrorKind::CreateFile, "a.txt");
    expect_error(z.write("a.txt", true, WriteReport::WriteFailed), ErrorKind::WriteFile, "a.txt");
    assert!(z.args().is_empty());
}

#[test]
fn unrecorded_writing_leaves_arguments() {
    let mut z = Zipper::new("/tmp/w");
    z.write("mimetype", false, WriteReport::Written).unwrap();
    assert!(z.args().is_empty());
}

#[test]
fn writing_twice_targets_the_same_file() {
    let mut z = Zipper::new("/tmp/w");
    let first = z.stage("a/b.txt").unwrap();
    z.write("a/b.txt", false, WriteReport::Written).unwrap();
    let second = z.stage("a/b.txt").unwrap();
    z.write("a/b.txt", false, WriteReport::Written).unwrap();
    assert_eq!(first.dest_file, second.dest_file);
    assert_eq!(first.dest_dir, second.dest_dir);
    assert!(z.args().is_empty());
}

#[test]
fn recording_twice_duplicates_the_argument() {
    let mut z = Zipper::new("/tmp/w");
    z.write("x.tex", true, WriteReport::Written).unwrap();
    z.write("x.tex", true, WriteReport::Written).unwrap();
    assert_eq!(z.args(), vec!["x.tex".to_string(), "x.tex".to_string()]);
}

#[test]
fn arguments_keep_staging_order() {
    let mut z = Zipper::new("/tmp/w");
    z.write("b", true, WriteReport::Written).unwrap();
    z.write("a", true, WriteReport::Written).unwrap();
    assert_eq!(z.args(), vec!["b".to_string(), "a".to_string()]);
}
