use std::io;
use std::str::FromStr;

use anon_sum::Either;
use anon_sum::Never;
use anon_sum::Sum0;
use anon_sum::Sum1;
use anon_sum::Sum2;
use anon_sum::Sum3;
use anon_sum::index::construct_0;
use anon_sum::index::construct_1;
use anon_sum::index::construct_2;
use anon_sum::index::into_first;

fn fun(arg: Sum3<i32, i32, String>) -> String {
    match arg {
        Either::First(int) | Either::Second(Either::First(int)) => int.to_string(),
        Either::Second(Either::Second(Either::First(string))) => string,
        Either::Second(Either::Second(Either::Second(_))) => unreachable!(),
    }
}

#[test]
fn it_works() {
    assert_eq!(fun(construct_0(1)), "1");

    assert_eq!(fun(construct_1(42)), "42");

    assert_eq!(fun(construct_2(String::from("hi"))), "hi");
}

fn read_file(path: &str) -> io::Result<String> {
    if path == "./foo" {
        Ok(String::from("hello"))
    } else if path == "./bar" {
        Ok(String::from("1"))
    } else {
        Err(io::Error::new(
            io::ErrorKind::Other,
            "only \"./foo\" and \"./bar\" paths are permitted",
        ))
    }
}

fn read<T>(path: &str) -> Result<T, Sum2<io::Error, T::Err>>
where
    T: FromStr,
{
    let string = read_file(path).map_err(construct_0)?;
    T::from_str(&string[..]).map_err(construct_1)
}

#[test]
fn read_test() {
    assert!(matches!(read::<i32>("./path"), Err(Either::First(_))));
    assert!(matches!(
        read::<i32>("./foo"),
        Err(Either::Second(Either::First(_)))
    ));
    assert!(matches!(read::<i32>("./bar"), Ok(1)));
}

#[test]
fn single() {
    let x: Sum1<&str> = construct_0("x");
    let unx = into_first(x);
    assert_eq!(unx, "x");
}

#[test]
fn never() {
    let never: Sum0 = return;
    #[allow(unreachable_code)]
    let _stuck: Never = never;
}
