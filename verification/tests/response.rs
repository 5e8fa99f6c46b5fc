use rotor::response::decompose;
use rotor::{Diagnostic, Response, SpawnError, Time, Token};

type R = Response<u64, u64>;

fn parts(
    r: R,
) -> (Result<u64, Option<Box<Diagnostic>>>, Option<u64>, Option<Time>) {
    decompose(Token(0), r)
}

#[test]
fn size_of_response() {
    assert_eq!(::std::mem::size_of::<Response<u64, u64>>(), 24)
}

#[test]
fn constructors_decompose_exactly() {
    assert_eq!(parts(Response::ok(5)), (Ok(5), None, None));
    assert_eq!(parts(Response::spawn(5, 9)), (Ok(5), Some(9), None));
    assert_eq!(parts(Response::done()), (Err(None), None, None));
    let (m, s, t) = parts(Response::error(Box::new(Diagnostic::new("boom".to_owned()))));
    assert_eq!(m, Err(Some(Box::new(Diagnostic::new("boom".to_owned())))));
    assert_eq!((s, t), (None, None));
}

#[test]
fn deadline_rewrites_normal_and_deadline() {
    let t1 = Time(100);
    let t2 = Time(200);
    assert_eq!(parts(R::ok(5).deadline(t1)), (Ok(5), None, Some(t1)));
    assert_eq!(parts(R::ok(5).deadline(t1).deadline(t2)), (Ok(5), None, Some(t2)));
}

#[test]
fn deadline_is_idempotent() {
    let t = Time(100);
    assert_eq!(parts(R::ok(5).deadline(t).deadline(t)), parts(R::ok(5).deadline(t)));
}

#[test]
fn map_is_a_functor() {
    let samples = || {
        vec![
            R::ok(5),
            R::ok(5).deadline(Time(9)),
            R::spawn(5, 11),
            R::done(),
            R::error(Box::new(Diagnostic::new("x".to_owned()))),
        ]
    };
    for (r, orig) in samples().into_iter().zip(samples()) {
        assert_eq!(parts(r.map(|m| m, |s| s)), parts(orig));
    }
    let f = |m: u64| m + 1;
    let g = |m: u64| m * 2;
    let s = |n: u64| n + 10;
    let q = |n: u64| n * 3;
    for (r, r2) in samples().into_iter().zip(samples()) {
        let composed = r.map(|m| f(g(m)), |n| s(q(n)));
        let sequential = r2.map(g, q).map(f, s);
        assert_eq!(parts(composed), parts(sequential));
    }
}

#[test]
fn wrap_keeps_the_seed() {
    assert_eq!(parts(R::spawn(5, 11).wrap(|m| m + 1)), (Ok(6), Some(11), None));
}

#[test]
fn spawn_error_describes_itself() {
    let full: SpawnError<u32> = SpawnError::NoSlabSpace(7);
    assert_eq!(full.description(), "state machine slab capacity limit is reached");
    assert!(full.cause().is_none());
    let user: SpawnError<u32> =
        SpawnError::UserError(Box::new(Diagnostic::new("bad seed".to_owned())));
    assert_eq!(user.description(), "bad seed");
    assert_eq!(user.cause().unwrap().description(), "bad seed");
}

#[test]
fn spawn_error_map_preserves_the_seed() {
    let full: SpawnError<u32> = SpawnError::NoSlabSpace(7);
    match full.map(|s| s + 1) {
        SpawnError::NoSlabSpace(s) => assert_eq!(s, 8),
        SpawnError::UserError(_) => panic!("seed was lost"),
    }
    let user: SpawnError<u32> =
        SpawnError::UserError(Box::new(Diagnostic::new("bad".to_owned())));
    match user.map(|s| s + 1) {
        SpawnError::UserError(e) => assert_eq!(e.description(), "bad"),
        SpawnError::NoSlabSpace(_) => panic!("error changed kind"),
    }
}
