//! Errors that carry the digests which went missing.
use buck2_re_recovery::missing_cas_digests::{BuildError, ErrorContext, MissingCasDigests};

fn missing_entry(path: &str, digest: &str) -> (String, String) {
    (path.to_owned(), digest.to_owned())
}

#[test]
fn survives_as_typed_context_through_wrapping() {
    let missing = vec![missing_entry("buck-out/foo", "aa:1")];
    let context = MissingCasDigests {
        missing: missing.clone(),
    };

    let error = BuildError::new("artifact missing".to_owned()).context(ErrorContext::Missing(context));
    let wrapped = error.context(ErrorContext::Text("uploading action inputs".to_owned()));

    let recovered = wrapped
        .find_missing_digests()
        .expect("typed context should survive wrapping");
    assert_eq!(recovered.missing, missing);
}

#[test]
fn absent_when_never_attached() {
    let error = BuildError::new("unrelated failure".to_owned());

    assert!(error.find_missing_digests().is_none());
}

#[test]
fn does_not_appear_in_formatted_message() {
    let context = MissingCasDigests {
        missing: vec![missing_entry("buck-out/foo", "aa:1")],
    };
    let error = BuildError::new("upload failed".to_owned()).context(ErrorContext::Missing(context));

    assert!(error.to_text().matches("artifact(s) missing").count() == 0);
    assert_eq!(error.to_text(), "upload failed");
}

#[test]
fn contexts_stand_in_front_of_the_message() {
    let error = BuildError::new("upload failed".to_owned())
        .context(ErrorContext::Text("inner".to_owned()))
        .context(ErrorContext::Text("outer".to_owned()));
    assert_eq!(error.to_text(), "outer: inner: upload failed");
}

#[test]
fn digests_on_their_own_count_what_is_missing() {
    let digests = MissingCasDigests {
        missing: vec![missing_entry("a", "aa:1"), missing_entry("b", "bb:2")],
    };
    assert_eq!(
        digests.to_text(),
        "2 artifact(s) missing from the RE CAS"
    );
    assert_eq!(digests.display(), None);
}

#[test]
fn digests_are_compared_in_order() {
    let ab = MissingCasDigests {
        missing: vec![missing_entry("a", "aa:1"), missing_entry("b", "bb:2")],
    };
    let ba = MissingCasDigests {
        missing: vec![missing_entry("b", "bb:2"), missing_entry("a", "aa:1")],
    };
    let a = MissingCasDigests {
        missing: vec![missing_entry("a", "aa:1")],
    };
    assert!(ab.same_as(&ab));
    assert!(!ab.same_as(&ba));
    assert!(!ab.same_as(&a));
}

#[test]
fn the_outermost_digests_are_found() {
    let inner = MissingCasDigests {
        missing: vec![missing_entry("inner", "aa:1")],
    };
    let outer = MissingCasDigests {
        missing: vec![missing_entry("outer", "bb:2")],
    };
    let error = BuildError::new("failed".to_owned())
        .context(ErrorContext::Missing(inner))
        .context(ErrorContext::Text("between".to_owned()))
        .context(ErrorContext::Missing(outer));
    assert_eq!(
        error.find_missing_digests().unwrap().missing,
        vec![missing_entry("outer", "bb:2")]
    );
}

#[test]
fn a_copy_pairs_the_same_paths_with_the_same_digests() {
    let digests = MissingCasDigests {
        missing: vec![missing_entry("a", "aa:1"), missing_entry("b", "bb:2")],
    };
    let copy = digests.clone();
    assert_eq!(copy.missing, digests.missing);
    assert!(copy.same_as(&digests));
}
