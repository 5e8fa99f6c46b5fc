use rotor::Async;

#[test]
fn map_touches_only_the_machine() {
    let double = |m: u32| m * 2;
    assert_eq!(Async::<u32, i8, char>::Send(3, 7).map(double), Async::Send(6, 7));
    assert_eq!(Async::<u32, i8, char>::Yield(3, 'x').map(double), Async::Yield(6, 'x'));
    assert_eq!(Async::<u32, i8, char>::Return(3, 7, 'x').map(double), Async::Return(6, 7, 'x'));
    assert_eq!(Async::<u32, i8, char>::Ignore(3).map(double), Async::Ignore(6));
    assert_eq!(Async::<u32, i8, char>::Stop.map(double), Async::Stop);
}

#[test]
fn map_result_touches_only_the_value() {
    let neg = |v: i8| -v;
    assert_eq!(Async::<u32, i8, char>::Send(3, 7).map_result(neg), Async::Send(3, -7));
    assert_eq!(Async::<u32, i8, char>::Yield(3, 'x').map_result(neg), Async::Yield(3, 'x'));
    assert_eq!(Async::<u32, i8, char>::Return(3, 7, 'x').map_result(neg), Async::Return(3, -7, 'x'));
    assert_eq!(Async::<u32, i8, char>::Stop.map_result(neg), Async::Stop);
}

#[test]
fn done_keeps_the_machine_unless_stopped() {
    let id = |m: u32| m + 1;
    assert_eq!(Async::<u32, i8, char>::Send(3, 7).done(id), Some(4));
    assert_eq!(Async::<u32, i8, char>::Ignore(9).done(id), Some(10));
    assert_eq!(Async::<u32, i8, char>::Stop.done(id), None);
}
