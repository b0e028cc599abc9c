use venture_core::errors::ServiceError;

#[test]
fn each_error_class_renders_its_message() {
    assert_eq!(ServiceError::Validation.message(), "invalid argument");
    assert_eq!(ServiceError::NotFound.message(), "not found");
    assert_eq!(ServiceError::Unauthenticated.message(), "invalid credentials");
    assert_eq!(ServiceError::Internal.message(), "internal error");
}

#[test]
fn error_classes_are_distinct() {
    let all = [
        ServiceError::Validation,
        ServiceError::NotFound,
        ServiceError::Unauthenticated,
        ServiceError::Internal,
    ];
    for a in 0..all.len() {
        for b in (a + 1)..all.len() {
            assert_ne!(all[a], all[b]);
            assert_ne!(all[a].message(), all[b].message());
        }
    }
}
