use rusty_chat::cancellation::{
    cancel_outcome, poisoned_token_error, poll_outcome, CancellationToken, CancellationTokenError, CancellationTokenSource,
};

#[test]
fn cancellation_token_test_token_initializes_uncancelled() {
    let cancellation_token = CancellationToken::new();

    assert!(!cancellation_token.is_cancelled().unwrap_or_else(|err| panic!(
        "Error while asserting that the CancellationToken initializes as uncancelled: {:?}",
        err
    )));
}

#[test]
fn cancellation_token_test_token_cancelled_after_cancel() {
    let cancellation_token = CancellationToken::new();

    cancellation_token
        .cancel()
        .unwrap_or_else(|err| panic!("Error while cancelling the CancellationToken: {:?}", err));

    assert!(cancellation_token.is_cancelled().unwrap_or_else(|err| {
        panic!(
            "Error while asserting that the CancellationToken was cancelled: {:?}",
            err
        );
    }));
}

#[test]
fn cancellation_token_test_token_cant_be_double_cancelled() {
    let cancellation_token = CancellationToken::new();

    cancellation_token.cancel().unwrap_or_else(|err| {
        panic!(
            "Error while cancelling the CancellationToken the first time: {:?}",
            err
        )
    });

    let failed = match cancellation_token.cancel() {
        Ok(()) => panic!("CancellationToken was cancelled twice successfully"),
        Err(err) => match err {
            CancellationTokenError::AlreadyCancelled => true,
            CancellationTokenError::PoisonError(reason) => panic!(
                "When cancelling the CancellationToken the second time, it was poinsoned: {}",
                reason
            ),
        },
    };

    assert!(failed);
    assert_eq!(cancellation_token.is_cancelled(), Ok(true));
}

#[test]
fn test_source_initializes_as_uncancelled() {
    let cancellation_token_source = CancellationTokenSource::new();

    assert!(!cancellation_token_source.is_cancelled().unwrap_or_else(|err| panic!(
        "Error while asserting that the CancellationTokenSource initialized as uncancelled: {:?}",
        err
    )));
}

#[test]
fn test_source_initializes_token_as_uncancelled() {
    let mut cancellation_token_source = CancellationTokenSource::new();

    let cancellation_token = match cancellation_token_source.new_token() {
        Ok(cancellation_token) => cancellation_token,
        Err(err) => panic!("Error while creating the CancellationToken: {:?}", err),
    };

    assert!(!cancellation_token.is_cancelled().unwrap_or_else(|err| panic!(
        "Error while asserting that the CancellationToken initialized as uncancelled: {:?}",
        err
    )));
}

#[test]
fn test_source_cancelled_after_cancel_empty() {
    let mut cancellation_token_source: CancellationTokenSource = CancellationTokenSource::new();

    cancellation_token_source.cancel().unwrap_or_else(|err| {
        panic!("Error while cancelling the CancellationTokenSource: {:?}", err)
    });

    assert!(cancellation_token_source.is_cancelled().unwrap_or_else(|err| {
        panic!(
            "Error while asserting that the CancellationTokenSource was cancelled: {:?}",
            err
        );
    }));
}

#[test]
fn test_source_cancelled_after_cancel_nonempty() {
    let mut cancellation_token_source: CancellationTokenSource = CancellationTokenSource::new();

    let _ = match cancellation_token_source.new_token() {
        Ok(cancellation_token) => cancellation_token,
        Err(err) => panic!("Error while creating the CancellationToken: {:?}", err),
    };

    cancellation_token_source.cancel().unwrap_or_else(|err| {
        panic!("Error while cancelling the CancellationTokenSource: {:?}", err)
    });

    assert!(cancellation_token_source.is_cancelled().unwrap_or_else(|err| {
        panic!(
            "Error while asserting that the CancellationTokenSource was cancelled: {:?}",
            err
        );
    }));
}

#[test]
fn test_source_cancelled_after_cancel() {
    let mut cancellation_token_source: CancellationTokenSource = CancellationTokenSource::new();

    match cancellation_token_source.new_token() {
        Ok(cancellation_token) => cancellation_token,
        Err(err) => panic!("Error while creating the dummy CancellationToken: {:?}", err),
    };

    cancellation_token_source.cancel().unwrap_or_else(|err| {
        panic!("Error while cancelling the CancellationTokenSource: {:?}", err)
    });

    assert!(cancellation_token_source.is_cancelled().unwrap_or_else(|err| {
        panic!(
            "Error while asserting that the CancellationTokenSource is cancelled: {:?}",
            err
        );
    }));
}

#[test]
fn test_source_cant_be_double_cancelled() {
    let mut cancellation_token_source = CancellationTokenSource::new();

    cancellation_token_source.cancel().unwrap_or_else(|err| {
        panic!(
            "Error while cancelling the CancellationTokenSource the first time: {:?}",
            err
        )
    });

    let failed = match cancellation_token_source.cancel() {
        Ok(()) => panic!("CancellationTokenSource was cancelled twice successfully"),
        Err(err) => match err {
            CancellationTokenError::AlreadyCancelled => true,
            CancellationTokenError::PoisonError(reason) => panic!(
                "When cancelling the CancellationTokenSource the second time, it was poinsoned: {}",
                reason
            ),
        },
    };

    assert!(failed);
}

#[test]
fn cancellation_token_source_test_source_all_tokens_cancelled_after_cancel() {
    let mut cancellation_token_source = CancellationTokenSource::new();

    let cancellation_token_first = match cancellation_token_source.new_token() {
        Ok(cancellation_token) => cancellation_token,
        Err(err) => panic!("Error while creating the first CancellationToken: {:?}", err),
    };

    let cancellation_token_second = match cancellation_token_source.new_token() {
        Ok(cancellation_token) => cancellation_token,
        Err(err) => panic!("Error while creating the second CancellationToken: {:?}", err),
    };

    cancellation_token_source.cancel().unwrap_or_else(|err| {
        panic!("Error while cancelling the CancellationTokenSource: {:?}", err)
    });

    assert!(cancellation_token_first.is_cancelled().unwrap_or_else(|err| panic!(
        "Error while asserting that the first CancellationToken was cancelled: {:?}",
        err
    )));

    assert!(cancellation_token_second.is_cancelled().unwrap_or_else(|err| panic!(
        "Error while asserting that the second CancellationToken was cancelled: {:?}",
        err
    )));
}

#[test]
fn cancellation_token_source_test_source_all_tokens_cancelled_after_drop() {
    let mut cancellation_token_source = CancellationTokenSource::new();

    let token_first = match cancellation_token_source.new_token() {
        Ok(cancellation_token) => cancellation_token,
        Err(err) => panic!("Error while creating the first CancellationToken: {:?}", err),
    };

    let token_second = match cancellation_token_source.new_token() {
        Ok(cancellation_token) => cancellation_token,
        Err(err) => panic!("Error while creating the second CancellationToken: {:?}", err),
    };

    drop(cancellation_token_source);

    assert!(token_first.is_cancelled().unwrap_or_else(|err| panic!(
        "Error while asserting that the first CancellationToken was cancelled: {:?}",
        err
    )));

    assert!(token_second.is_cancelled().unwrap_or_else(|err| panic!(
        "Error while asserting that the second CancellationToken was cancelled: {:?}",
        err
    )));
}

#[test]
fn source_rejects_new_token_after_cancel() {
    let mut source = CancellationTokenSource::new();
    let tokens: Vec<_> = (0..3).map(|_| source.new_token().expect("minting a token")).collect();
    assert_eq!(source.cancel(), Ok(()));
    for token in &tokens {
        assert_eq!(token.is_cancelled(), Ok(true));
    }
    assert!(matches!(source.new_token(), Err(CancellationTokenError::AlreadyCancelled)));
}

#[test]
fn source_cancel_counts_a_token_cancelled_on_its_own() {
    let mut source = CancellationTokenSource::new();
    let first = source.new_token().expect("minting a token");
    let second = source.new_token().expect("minting a token");
    assert_eq!(first.cancel(), Ok(()));
    assert_eq!(source.cancel(), Ok(()));
    assert_eq!(first.is_cancelled(), Ok(true));
    assert_eq!(second.is_cancelled(), Ok(true));
}

#[test]
fn source_drop_after_cancel_changes_nothing() {
    let mut source = CancellationTokenSource::default();
    let token = source.new_token().expect("minting a token");
    assert_eq!(source.cancel(), Ok(()));
    drop(source);
    assert_eq!(token.is_cancelled(), Ok(true));
}

#[test]
fn cancel_outcome_reports_each_case() {
    assert_eq!(cancel_outcome(Ok(false)), Ok(()));
    assert_eq!(cancel_outcome(Ok(true)), Err(CancellationTokenError::AlreadyCancelled));
    assert_eq!(
        cancel_outcome(Err(String::from("poisoned"))),
        Err(CancellationTokenError::PoisonError(String::from("poisoned")))
    );
    assert_eq!(poll_outcome(Ok(true)), Ok(true));
    assert_eq!(poll_outcome(Ok(false)), Ok(false));
    assert_eq!(
        poll_outcome(Err(String::from("p"))),
        Err(CancellationTokenError::PoisonError(String::from("p")))
    );
}

#[test]
fn cancellation_error_messages() {
    assert_eq!(
        CancellationTokenError::AlreadyCancelled.message(),
        "The resource was already cancelled"
    );
    assert_eq!(
        CancellationTokenError::PoisonError(String::from("lock")).message(),
        "The resource was poisoned: lock"
    );
}

#[test]
fn poisoned_token_error_names_index_and_reason() {
    assert_eq!(
        poisoned_token_error(12, String::from("lock poisoned")),
        CancellationTokenError::PoisonError(String::from(
            "While cancelling CancellationTokenSource, the contained CancellationToken at index 12 was poisoned: lock poisoned"
        ))
    );
    assert_eq!(
        poisoned_token_error(0, String::new()),
        CancellationTokenError::PoisonError(String::from(
            "While cancelling CancellationTokenSource, the contained CancellationToken at index 0 was poisoned: "
        ))
    );
}
