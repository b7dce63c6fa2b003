use pg_documentdb_gw::error::DocumentDBError;
use pg_documentdb_gw::text::{append_decimal, append_digits, with_number};

#[test]
fn numbers_are_rendered_in_decimal() {
    for n in [0i64, 7, 10, -1, -10, 4711, i64::MAX, i64::MIN] {
        let mut out = "n=".to_string();
        append_decimal(&mut out, n);
        assert_eq!(out, format!("n={}", n));
        assert_eq!(with_number("<", n, ">"), format!("<{}>", n));
    }
    let mut out = String::new();
    append_digits(&mut out, u64::MAX);
    assert_eq!(out, u64::MAX.to_string());
}

#[test]
fn the_open_transaction_itself_is_refused_in_words() {
    assert_eq!(DocumentDBError::AlreadyOpen.message(), "This transaction is already started.");
}
