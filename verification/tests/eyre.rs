//! The scenarios a wrapped function is expected to show at run time, played
//! against the library: the emitted text on one side, and the run of an
//! emitted body (message first, then the original body as a moved unit of
//! work, then the attach operation) on the other.

use context_attr::chain::{call_with_context, Outcome};
use context_attr::parse::eyre;

struct Holder(u32);

struct Token;

fn err<T: std::fmt::Debug>(r: &Outcome<T>, n: usize) -> String {
    match r {
        Outcome::Failure(chain) => chain[n].clone(),
        Outcome::Success(_) => panic!("expected a failure"),
    }
}

#[test]
fn simple_bail() {
    let out = eyre(
        "\"Attribute\"",
        "fn func() -> eyre::Result<()> { eyre::bail!(\"Body\"); }",
    )
    .unwrap();
    assert_eq!(
        out,
        "fn func () -> eyre :: Result < () > { let message = \"Attribute\"; \
         let mut inner = move || { eyre :: bail ! (\"Body\") ; }; \
         let result = inner(); eyre::WrapErr::<_, _>::context(result, message) }"
    );

    let message = "Attribute".to_string();
    let result = call_with_context::<(), _>(message, || {
        Outcome::Failure(vec!["Body".to_string()])
    });
    assert_eq!(err(&result, 0), "Attribute");
    assert_eq!(err(&result, 1), "Body");
}

#[test]
fn single_arg() {
    let out = eyre(
        "\"Attribute\"",
        "fn func(n: u32) -> eyre::Result<()> { eyre::bail!(\"Body {n}\"); }",
    )
    .unwrap();
    assert_eq!(
        out,
        "fn func (n : u32) -> eyre :: Result < () > { let message = \"Attribute\"; \
         let mut inner = move || { eyre :: bail ! (\"Body {n}\") ; }; \
         let result = inner(); eyre::WrapErr::<_, _>::context(result, message) }"
    );

    let n: u32 = 42;
    let message = "Attribute".to_string();
    let result = call_with_context::<(), _>(message, move || {
        Outcome::Failure(vec![format!("Body {n}")])
    });
    assert_eq!(err(&result, 1), "Body 42");
}

#[test]
fn arg_used_in_context() {
    let out = eyre(
        "format!(\"Attribute {n}\")",
        "fn func(n: u32) -> eyre::Result<()> { eyre::bail!(\"Body {n}\"); }",
    )
    .unwrap();
    assert_eq!(
        out,
        "fn func (n : u32) -> eyre :: Result < () > { let message = format!(\"Attribute {n}\"); \
         let mut inner = move || { eyre :: bail ! (\"Body {n}\") ; }; \
         let result = inner(); eyre::WrapErr::<_, _>::context(result, message) }"
    );

    let n: u32 = 42;
    let message = format!("Attribute {n}");
    let result = call_with_context::<(), _>(message, move || {
        Outcome::Failure(vec![format!("Body {n}")])
    });
    assert_eq!(err(&result, 0), "Attribute 42");
}

#[test]
fn closure_does_not_move_arg() {
    let out = eyre(
        "\"Attribute\"",
        "fn func(_a: A) -> eyre::Result<()> { eyre::bail!(\"Body\"); }",
    )
    .unwrap();
    assert_eq!(
        out,
        "fn func (_a : A) -> eyre :: Result < () > { let message = \"Attribute\"; \
         let mut inner = move || { eyre :: bail ! (\"Body\") ; }; \
         let result = inner(); eyre::WrapErr::<_, _>::context(result, message) }"
    );

    // the message is produced with only borrowed access to the parameter, so
    // the body can still consume the non-copyable value afterwards
    let _a = Token;
    let message = (|_a: &Token| "Attribute".to_string())(&_a);
    let result = call_with_context::<(), _>(message, move || {
        drop(_a);
        Outcome::Failure(vec!["Body".to_string()])
    });
    assert!(matches!(result, Outcome::Failure(_)));
}

#[test]
fn struct_method() {
    let out = eyre(
        "format!(\"Attribute {}\", self.0)",
        "fn func(&self) -> eyre::Result<()> { eyre::bail!(\"Body {}\", self.0); }",
    )
    .unwrap();
    assert_eq!(
        out,
        "fn func (& self) -> eyre :: Result < () > \
         { let message = format!(\"Attribute {}\", self.0); \
         let mut inner = move || { eyre :: bail ! (\"Body {}\" , self . 0) ; }; \
         let result = inner(); eyre::WrapErr::<_, _>::context(result, message) }"
    );

    let holder = Holder(42);
    let message = format!("Attribute {}", holder.0);
    let result = call_with_context::<(), _>(message, move || {
        Outcome::Failure(vec![format!("Body {}", holder.0)])
    });
    assert_eq!(err(&result, 0), "Attribute 42");
    assert_eq!(err(&result, 1), "Body 42");
}

#[test]
fn struct_method_mut() {
    let out = eyre(
        "format!(\"Attribute {}\", self.0)",
        "fn func(&mut self) -> eyre::Result<()> { self.0 += 1; eyre::bail!(\"Body {}\", self.0); }",
    )
    .unwrap();
    assert_eq!(
        out,
        "fn func (& mut self) -> eyre :: Result < () > \
         { let message = format!(\"Attribute {}\", self.0); \
         let mut inner = move || { self . 0 += 1 ; eyre :: bail ! (\"Body {}\" , self . 0) ; }; \
         let result = inner(); eyre::WrapErr::<_, _>::context(result, message) }"
    );

    // the message reads the receiver before the body mutates it
    let mut holder = Holder(42);
    let message = format!("Attribute {}", holder.0);
    let result = call_with_context::<(), _>(message, move || {
        holder.0 += 1;
        Outcome::Failure(vec![format!("Body {}", holder.0)])
    });
    assert_eq!(err(&result, 0), "Attribute 42");
    assert_eq!(err(&result, 1), "Body 43");
}
