use oysterpack::devops::SourceCodeLocation;
use oysterpack::failures::{Error, ErrorId, Failure};

const ERR_1: ErrorId = ErrorId(1);
const ERR_2: ErrorId = ErrorId(2);
const ERR_3: ErrorId = ErrorId(3);
const ERR_4: ErrorId = ErrorId(4);
const ERR_5: ErrorId = ErrorId(5);

fn loc() -> SourceCodeLocation {
    SourceCodeLocation::new("oysterpack_core::errors::tests", 1)
}

fn client_error(text: &str) -> Failure {
    Failure::Other { text: text.to_string(), cause: None }
}

fn op_error(id: ErrorId, failure: Failure) -> Error {
    Error::new(id, failure, loc())
}

fn wrap(err: Error) -> Failure {
    Failure::Error(Box::new(err))
}

#[test]
fn generated_error_macro() {
    let err = op_error(ERR_5, client_error("Err1"));
    assert_eq!(err.error_id_chain(), vec![err.id()]);
}

#[test]
fn simple_error() {
    let err = op_error(ERR_1, client_error("Err1"));
    assert_eq!(err.error_id_chain(), vec![err.id()]);
    assert_eq!(err.loc().line(), 1);
    assert!(err.timestamp() > 0);
}

#[test]
fn error_context() {
    let err = op_error(ERR_1, client_error("Err1"));
    let err_with_context = Failure::Other { text: "Some context".to_string(), cause: Some(Box::new(wrap(err))) };
    match &err_with_context {
        Failure::Other { cause: Some(cause), .. } => match &**cause {
            Failure::Error(err) => assert_eq!(err.id(), ERR_1),
            _ => panic!("the cause should be the error"),
        },
        _ => panic!("the context should have a cause"),
    }
    let err = op_error(ERR_2, err_with_context);
    assert_eq!(err.error_id_chain(), vec![ERR_2, ERR_1]);
}

#[test]
fn error_id_chain() {
    let err = op_error(ERR_2, client_error("Err2"));
    let err = op_error(ERR_4, wrap(err));
    let err = op_error(ERR_5, wrap(err));
    let err = op_error(ERR_3, wrap(err));
    assert_eq!(err.error_id_chain(), vec![ERR_3, ERR_5, ERR_4, ERR_2]);
}

#[test]
fn distinct_error_ids() {
    let err = op_error(ERR_2, client_error("Err2"));
    let err = op_error(ERR_4, wrap(err));
    let err = op_error(ERR_2, wrap(err));
    assert_eq!(err.error_id_chain(), vec![ERR_2, ERR_4, ERR_2]);
    let mut ids = err.distinct_error_ids();
    ids.sort();
    assert_eq!(ids, vec![ERR_2, ERR_4]);
    assert_eq!(ERR_4.to_string(), "4");
    assert_eq!(ErrorId(255).to_string(), "ff");
}

#[test]
fn error_instances_differ() {
    let a = op_error(ERR_1, client_error("a"));
    let b = op_error(ERR_1, client_error("a"));
    assert_ne!(a.instance_id(), b.instance_id());
}
