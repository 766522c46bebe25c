use typing_game::matching::{apply_key, get_matched_strings, get_random_test, TextStatus, TypedString, ERASE_KEY};

#[test]
fn matching_fully() {
    let test = get_matched_strings(
        &String::from("the cake is a lie"),
        &String::from("the cake is a lie"),
    );
    assert_eq!(
        test,
        vec![TypedString {
            text_status: TextStatus::Filled,
            text: String::from("the cake is a lie")
        }]
    );
}

#[test]
fn not_matching_fully() {
    let test = get_matched_strings(
        &String::from("the many shall suffer for the sins of the one"),
        &String::from("i like pierogis and herbata,-----------------"),
    );
    assert_eq!(
        test,
        vec![TypedString {
            text_status: TextStatus::Wrong,
            text: String::from("i like pierogis and herbata,-----------------")
        },]
    );
}

#[test]
fn matching_not_fully() {
    let test = get_matched_strings(
        &String::from("This is filled string,wrong chars only, but this is"),
        &String::from("This is filled string, and this isn't , but this is,this is unfilled"),
    );
    assert_eq!(
        test,
        vec![
            TypedString {
                text_status: TextStatus::Filled,
                text: String::from("This is filled string,")
            },
            TypedString {
                text_status: TextStatus::Wrong,
                text: String::from(" and this isn't ")
            },
            TypedString {
                text_status: TextStatus::Filled,
                text: String::from(", but this is")
            },
            TypedString {
                text_status: TextStatus::Unfilled,
                text: String::from(",this is unfilled")
            },
        ]
    );
}

#[test]
fn matching_empty_reference() {
    let test = get_matched_strings(&String::from("abc"), &String::new());
    assert_eq!(
        test,
        vec![TypedString {
            text_status: TextStatus::Unfilled,
            text: String::new()
        }]
    );
}

#[test]
fn matching_nothing_typed() {
    let test = get_matched_strings(&String::new(), &String::from("ab"));
    assert_eq!(
        test,
        vec![TypedString {
            text_status: TextStatus::Unfilled,
            text: String::from("ab")
        }]
    );
}

#[test]
fn fixed_reference_text() {
    assert_eq!(get_random_test(), "Not a random text, only used for testing");
}

#[test]
fn keys_edit_typed_text() {
    let mut s = String::from("ab");
    apply_key(&mut s, 'c');
    assert_eq!(s, "abc");
    apply_key(&mut s, ERASE_KEY);
    apply_key(&mut s, ERASE_KEY);
    assert_eq!(s, "a");
    apply_key(&mut s, ERASE_KEY);
    apply_key(&mut s, ERASE_KEY);
    assert_eq!(s, "");
}
