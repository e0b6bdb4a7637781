use hass_mqtt::args::{Args, ArgsError};

#[test]
fn empty_arguments_keep_equality() {
    assert_eq!(Args::parse(""), Ok(Args { impl_eq: true }));
    assert_eq!(Args::parse("   "), Ok(Args { impl_eq: true }));
}

#[test]
fn question_eq_drops_equality() {
    assert_eq!(Args::parse("?Eq"), Ok(Args { impl_eq: false }));
    assert_eq!(Args::parse(" ?Eq "), Ok(Args { impl_eq: false }));
    assert_eq!(Args::parse("? Eq"), Ok(Args { impl_eq: false }));
}

#[test]
fn other_arguments_are_refused() {
    assert_eq!(Args::parse("Eq"), Err(ArgsError));
    assert_eq!(Args::parse("?Eqx"), Err(ArgsError));
    assert_eq!(Args::parse("?Eq,"), Err(ArgsError));
    assert_eq!(Args::parse("?"), Err(ArgsError));
    assert_eq!(Args::parse("?E"), Err(ArgsError));
}

#[test]
fn args_error_message() {
    assert_eq!(ArgsError.message(), "only valid argument is ?Eq");
}
