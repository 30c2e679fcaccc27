use timekeeper::boring_error::BoringError;

#[test]
fn empty_stack_names_the_function() {
    let err = BoringError::consume_stack("EVP_parse_public_key", Vec::new());
    assert_eq!(err.stack_depth(), 1);
    assert_eq!(err.display_string(), "error calling EVP_parse_public_key");
    assert_eq!(err.debug_string(), "error calling EVP_parse_public_key\n");
}

#[test]
fn stack_is_kept_in_order() {
    let trace = vec![
        "1:error:0600007e:public key routines:OPENSSL_internal:DECODE_ERROR".to_string(),
        "2:error:0c000068:asn1 routines:OPENSSL_internal:BAD_OBJECT_HEADER".to_string(),
    ];
    let err = BoringError::consume_stack("EVP_parse_public_key", trace.clone());
    assert_eq!(err.stack_depth(), 2);
    assert_eq!(err.display_string(), trace[0]);
    assert_eq!(err.debug_string(), format!("{}\n{}\n", trace[0], trace[1]));
}
