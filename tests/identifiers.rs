use dotwalk::{Id, IdError};

#[test]
fn simple_id_construction() {
    let id1 = Id::new("hello");
    match id1 {
        Ok(_) => {}
        Err(..) => panic!("'hello' is not a valid value for id anymore"),
    }
}

#[test]
fn badly_formatted_id() {
    let id2 = Id::new("Weird { struct : ure } !!!");
    match id2 {
        Ok(_) => panic!("graphviz id suddenly allows spaces, brackets and stuff"),
        Err(..) => {}
    }
}

#[test]
fn valid_identifiers_keep_their_text() {
    for name in ["a", "_", "A_9", "_under_score", "cluster_0", "Zz09"] {
        let id = Id::new(name).unwrap();
        assert_eq!(id.as_str(), name);
    }
}

#[test]
fn empty_name_is_rejected() {
    assert_eq!(Id::new(""), Err(IdError::EmptyName));
}

#[test]
fn invalid_start_char_is_reported() {
    assert_eq!(Id::new("9abc"), Err(IdError::InvalidStartChar('9')));
    assert_eq!(Id::new(" x"), Err(IdError::InvalidStartChar(' ')));
    assert_eq!(Id::new("-"), Err(IdError::InvalidStartChar('-')));
    assert_eq!(Id::new("\u{e9}t\u{e9}"), Err(IdError::InvalidStartChar('\u{e9}')));
}

#[test]
fn first_invalid_char_is_reported() {
    assert_eq!(Id::new("Weird { struct"), Err(IdError::InvalidChar(' ')));
    assert_eq!(Id::new("a-b c"), Err(IdError::InvalidChar('-')));
    assert_eq!(Id::new("ab\u{e9}"), Err(IdError::InvalidChar('\u{e9}')));
}

#[test]
fn id_error_messages() {
    assert_eq!(IdError::EmptyName.to_string(), "Id cannot be empty");
    assert_eq!(IdError::InvalidStartChar('9').to_string(), "Id cannot begin with '9'");
    assert_eq!(IdError::InvalidChar(' ').to_string(), "Id cannot contain ' '");
}

#[test]
fn id_clone_keeps_text() {
    let id = Id::new("node_1").unwrap();
    let copy = id.clone();
    assert_eq!(copy.as_str(), "node_1");
    assert!(copy == id);
}
