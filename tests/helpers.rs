use rs_mytools::{
    temp_file_name, uuid, IterExt, OptionExt, ResultExt, ResultVecExt, StringExt, VecExt,
};

#[test]
fn all_or_empty_cases() {
    let empty: Vec<i32> = Vec::new();
    assert!(empty.all_or_empty(|x| *x > 100));
    assert!(vec![2, 4, 6].all_or_empty(|x| x % 2 == 0));
    assert!(!vec![2, 3, 6].all_or_empty(|x| x % 2 == 0));
}

#[test]
fn first_and_last_option() {
    let v = vec!['a', 'b', 'c'];
    assert_eq!(v.first_option(), Some(&'a'));
    assert_eq!(v.last_option(), Some(&'c'));
    let e: Vec<char> = Vec::new();
    assert_eq!(e.first_option(), None);
    assert_eq!(e.last_option(), None);
}

#[test]
fn collect_results_all_ok() {
    let v: Vec<Result<u8, String>> = vec![Ok(1), Ok(2), Ok(3)];
    assert_eq!(v.collect_results(), Ok(vec![1, 2, 3]));
    let e: Vec<Result<u8, String>> = Vec::new();
    assert_eq!(e.collect_results(), Ok(Vec::new()));
}

#[test]
fn collect_results_first_error() {
    let v: Vec<Result<u8, &str>> = vec![Ok(1), Err("first"), Ok(3), Err("second")];
    assert_eq!(v.collect_results(), Err("first"));
}

#[test]
fn take_vec_prefix() {
    assert_eq!(vec![1, 2, 3, 4].take_vec(2), vec![1, 2]);
    assert_eq!(vec![1, 2].take_vec(5), vec![1, 2]);
    assert_eq!(vec![1, 2].take_vec(0), Vec::<i32>::new());
}

#[test]
fn every_nth_strides() {
    let mut it = vec![0, 1, 2, 3, 4, 5, 6, 7].every_nth(3);
    assert_eq!(it.next(), Some(0));
    assert_eq!(it.next(), Some(3));
    assert_eq!(it.next(), Some(6));
    assert_eq!(it.next(), None);
    assert_eq!(it.next(), None);
    let mut one = vec!['a', 'b'].every_nth(1);
    assert_eq!(one.next(), Some('a'));
    assert_eq!(one.next(), Some('b'));
    assert_eq!(one.next(), None);
}

#[test]
fn map_or_default_cases() {
    assert_eq!(Some(4).map_or_default(0, |x| x * 10), 40);
    assert_eq!(None::<i32>.map_or_default(7, |x| x * 10), 7);
}

#[test]
fn try_map_cases() {
    let parse = |s: &str| s.parse::<i32>().map_err(|_| "bad");
    assert_eq!(Some("12").try_map(parse), Ok(Some(12)));
    assert_eq!(Some("x").try_map(parse), Err("bad"));
    assert_eq!(None.try_map(parse), Ok(None));
}

#[test]
fn ignore_err_cases() {
    assert_eq!(Ok::<i32, String>(3).ignore_err(), Some(3));
    assert_eq!(Err::<i32, String>("no".to_string()).ignore_err(), None);
}

#[test]
fn map_err_with_cases() {
    let ok: Result<i32, String> = Ok(1);
    assert_eq!(ok.map_err_with(|e| format!("wrapped: {}", e)), Ok(1));
    let err: Result<i32, String> = Err("boom".to_string());
    assert_eq!(
        err.map_err_with(|e| format!("wrapped: {}", e)),
        Err("wrapped: boom".to_string())
    );
}

#[test]
fn is_blank_cases() {
    assert!("".is_blank());
    assert!(" \t\n\u{3000}".is_blank());
    assert!(!"  a ".is_blank());
}

#[test]
fn to_camel_case_cases() {
    assert_eq!("hello_world".to_camel_case(), "helloWorld");
    assert_eq!("already".to_camel_case(), "already");
    assert_eq!("a__b_".to_camel_case(), "aB");
    assert_eq!("_x_1y".to_camel_case(), "X1y");
    assert_eq!("".to_camel_case(), "");
}

#[test]
fn chunks_cases() {
    assert_eq!("abcdefg".chunks(3), vec!["abc", "def", "g"]);
    assert_eq!("abcdef".chunks(3), vec!["abc", "def"]);
    assert_eq!("".chunks(4), Vec::<String>::new());
    assert_eq!("é".chunks(1), vec!["\u{FFFD}", "\u{FFFD}"]);
}

#[test]
fn uuid_is_lower_hex() {
    assert_eq!(uuid(0), "0");
    assert_eq!(uuid(255), "ff");
    assert_eq!(uuid(0x1a2b3c), "1a2b3c");
    assert_eq!(uuid(u128::MAX), "ffffffffffffffffffffffffffffffff");
}

#[test]
fn temp_file_name_has_prefix() {
    assert_eq!(temp_file_name(4096), "tmp-1000");
    assert_eq!(temp_file_name(10), "tmp-a");
}

#[test]
fn every_nth_on_empty_and_large_stride() {
    let mut empty = Vec::<u8>::new().every_nth(2);
    assert_eq!(empty.next(), None);
    let mut wide = vec![5, 6, 7].every_nth(10);
    assert_eq!(wide.next(), Some(5));
    assert_eq!(wide.next(), None);
}

#[test]
fn chunks_size_beyond_length() {
    assert_eq!("abc".chunks(10), vec!["abc"]);
    assert_eq!("ab".chunks(1), vec!["a", "b"]);
}

#[test]
fn collect_results_single_error() {
    let v: Vec<Result<u8, u8>> = vec![Err(9)];
    assert_eq!(v.collect_results(), Err(9));
}
