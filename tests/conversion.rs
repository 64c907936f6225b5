use rnote_cli::{
    export_title, select_format, Action, Conversion, ConvertError, Event, ExportFormat, Phase,
};

fn some(s: &str) -> Option<String> {
    Some(s.to_string())
}

#[test]
fn selects_each_supported_format() {
    assert_eq!(select_format(&some("svg")), Ok(ExportFormat::Svg));
    assert_eq!(select_format(&some("xopp")), Ok(ExportFormat::Xopp));
    assert_eq!(select_format(&some("pdf")), Ok(ExportFormat::Pdf));
}

#[test]
fn rejects_unsupported_extension() {
    assert_eq!(
        select_format(&some("png")),
        Err(ConvertError::UnsupportedExtension("png".to_string()))
    );
    // Matching is exact, letter case included.
    assert_eq!(
        select_format(&some("PDF")),
        Err(ConvertError::UnsupportedExtension("PDF".to_string()))
    );
    assert_eq!(
        select_format(&some("")),
        Err(ConvertError::UnsupportedExtension(String::new()))
    );
}

#[test]
fn rejects_missing_extension() {
    assert_eq!(select_format(&None), Err(ConvertError::MissingExtension));
}

#[test]
fn title_is_stem_or_default() {
    assert_eq!(export_title(some("notes")), "notes");
    assert_eq!(export_title(None), "output_file");
}

#[test]
fn error_messages() {
    assert_eq!(
        ConvertError::UnsupportedExtension("png".to_string()).message(),
        "unsupported extension `png` for output file"
    );
    assert_eq!(
        ConvertError::MissingExtension.message(),
        "Output file needs to have an extension to determine the file type."
    );
    assert_eq!(
        ConvertError::InputUnreadable("No such file or directory".to_string()).message(),
        "No such file or directory"
    );
    assert_eq!(ConvertError::DocumentRejected("bad".to_string()).message(), "bad");
    assert_eq!(ConvertError::ExportFailed("enc".to_string()).message(), "enc");
    assert_eq!(ConvertError::OutputUnwritable("ro".to_string()).message(), "ro");
}

#[test]
fn successful_conversion_writes_exported_bytes() {
    let (mut c, first) = Conversion::new(some("pdf"), some("doc"));
    assert_eq!(first, Action::ReadInput);
    assert_eq!(c.phase(), Phase::Reading);
    assert_eq!(c.step(Event::InputRead(vec![1, 2, 3])), Action::OpenDocument(vec![1, 2, 3]));
    assert_eq!(c.phase(), Phase::Opening);
    assert_eq!(
        c.step(Event::DocumentOpened),
        Action::Export { format: ExportFormat::Pdf, title: "doc".to_string() }
    );
    assert_eq!(c.phase(), Phase::Exporting);
    assert_eq!(c.step(Event::Exported(vec![9, 8])), Action::WriteOutput(vec![9, 8]));
    assert_eq!(c.phase(), Phase::Writing);
    assert!(!c.is_finished());
    assert_eq!(c.step(Event::OutputWritten), Action::Finish(Ok(())));
    assert!(c.is_finished());
}

#[test]
fn export_without_stem_uses_default_title() {
    let (mut c, _) = Conversion::new(some("xopp"), None);
    c.step(Event::InputRead(vec![]));
    assert_eq!(
        c.step(Event::DocumentOpened),
        Action::Export { format: ExportFormat::Xopp, title: "output_file".to_string() }
    );
}

#[test]
fn unsupported_extension_fails_without_export() {
    let (mut c, _) = Conversion::new(some("png"), some("doc"));
    c.step(Event::InputRead(vec![0]));
    assert_eq!(
        c.step(Event::DocumentOpened),
        Action::Finish(Err(ConvertError::UnsupportedExtension("png".to_string())))
    );
    assert!(c.is_finished());
    assert!(!c.accepts(&Event::Exported(vec![1])));
    assert!(!c.accepts(&Event::OutputWritten));
}

#[test]
fn missing_extension_fails_without_export() {
    let (mut c, _) = Conversion::new(None, some("doc"));
    c.step(Event::InputRead(vec![0]));
    assert_eq!(
        c.step(Event::DocumentOpened),
        Action::Finish(Err(ConvertError::MissingExtension))
    );
    assert!(c.is_finished());
}

#[test]
fn unreadable_input_fails_first() {
    let (mut c, _) = Conversion::new(None, None);
    assert_eq!(
        c.step(Event::InputFailed("denied".to_string())),
        Action::Finish(Err(ConvertError::InputUnreadable("denied".to_string())))
    );
    assert!(c.is_finished());
}

#[test]
fn rejected_document_fails() {
    let (mut c, _) = Conversion::new(some("svg"), None);
    c.step(Event::InputRead(vec![7]));
    assert_eq!(
        c.step(Event::DocumentRejected("malformed".to_string())),
        Action::Finish(Err(ConvertError::DocumentRejected("malformed".to_string())))
    );
}

#[test]
fn failed_export_and_write_fail() {
    let (mut c, _) = Conversion::new(some("svg"), None);
    c.step(Event::InputRead(vec![7]));
    c.step(Event::DocumentOpened);
    assert_eq!(
        c.step(Event::ExportFailed("enc".to_string())),
        Action::Finish(Err(ConvertError::ExportFailed("enc".to_string())))
    );

    let (mut c, _) = Conversion::new(some("svg"), None);
    c.step(Event::InputRead(vec![7]));
    c.step(Event::DocumentOpened);
    c.step(Event::Exported(vec![1]));
    assert_eq!(
        c.step(Event::OutputFailed("read-only".to_string())),
        Action::Finish(Err(ConvertError::OutputUnwritable("read-only".to_string())))
    );
}

#[test]
fn accepts_only_outcomes_of_the_pending_action() {
    let (c, _) = Conversion::new(some("svg"), None);
    assert!(c.accepts(&Event::InputRead(vec![])));
    assert!(c.accepts(&Event::InputFailed("x".to_string())));
    assert!(!c.accepts(&Event::DocumentOpened));
    assert!(!c.accepts(&Event::Exported(vec![])));
    assert!(!c.accepts(&Event::OutputWritten));
}
