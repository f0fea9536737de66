use multithreaded_kv_store::{Op, StoreEngine};

#[test]
fn write_syntax_error_message() {
    let err = StoreEngine::prepare_operation("Write name Amey").unwrap_err();
    assert_eq!(err, "Write Operation Syntax Error \n");
}

#[test]
fn write_needs_equals_sign_as_third_word() {
    let err = StoreEngine::prepare_operation("Write name == Amey").unwrap_err();
    assert_eq!(err, "Write Operation Syntax Error \n");
    assert!(StoreEngine::prepare_operation("Write name = Amey Kumar").is_err());
}

#[test]
fn read_and_delete_syntax_error_messages() {
    assert_eq!(
        StoreEngine::prepare_operation("Read a b").unwrap_err(),
        "Read Operation Syntax Error \n"
    );
    assert_eq!(
        StoreEngine::prepare_operation("DELETE").unwrap_err(),
        "Delete Operation Syntax Error \n"
    );
}

#[test]
fn unknown_operation_message() {
    let err = StoreEngine::prepare_operation("Update name = Amey").unwrap_err();
    assert_eq!(
        err,
        "Syntax Error:\nIllegal Query, Coundn't find any operation in query, please write query using correct syntax."
    );
}

#[test]
fn words_are_split_on_every_space() {
    // Two spaces make an empty word, so the query has three words.
    assert!(StoreEngine::prepare_operation("Read  name").is_err());
    // A trailing space makes an empty last word.
    assert!(StoreEngine::prepare_operation("Read name ").is_err());
    // A read of the empty key is a well-formed query.
    let op = StoreEngine::prepare_operation("read ").unwrap();
    match op.op.unwrap() {
        Op::ReadOp(read) => assert_eq!(read.key, ""),
        _ => panic!("Expected ReadOp"),
    }
}

#[test]
fn delete_keyword_in_any_case() {
    let op = StoreEngine::prepare_operation("dElEtE Key").unwrap();
    match op.op.unwrap() {
        Op::DeleteOp(delete) => assert_eq!(delete.key, "Key"),
        _ => panic!("Expected DeleteOp"),
    }
}

#[test]
fn non_ascii_keys_and_values_are_kept() {
    let op = StoreEngine::prepare_operation("WRITE ключ = значение").unwrap();
    match op.op.unwrap() {
        Op::WriteOp(write) => {
            assert_eq!(write.key, "ключ");
            assert_eq!(write.value, "значение");
        }
        _ => panic!("Expected WriteOp"),
    }
}

#[test]
fn keyword_with_non_ascii_letter_is_unknown() {
    // "İ" lowercases to two characters, so this is no keyword.
    assert!(StoreEngine::prepare_operation("WRİTE name = Amey").is_err());
}
