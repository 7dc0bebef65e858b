use ffi_bridge::fibonacci::{fibonacci, try_fibonacci, FibonacciIter};

#[test]
fn fibonacci_of_zero_is_empty() {
    assert_eq!(fibonacci(0), Vec::<usize>::new());
}

#[test]
fn fibonacci_first_ten_terms() {
    assert_eq!(fibonacci(10), vec![1, 1, 2, 3, 5, 8, 13, 21, 34, 55]);
}

#[test]
fn fibonacci_recurrence_holds() {
    let v = fibonacci(40);
    assert_eq!(v[0], 1);
    assert_eq!(v[1], 1);
    for i in 0..38 {
        assert_eq!(v[i + 2], v[i] + v[i + 1]);
    }
}

#[test]
fn fibonacci_shorter_is_prefix_of_longer() {
    let short = fibonacci(7);
    let long = fibonacci(20);
    assert_eq!(&long[..7], &short[..]);
}

#[test]
fn generator_yields_the_sequence() {
    let mut it = FibonacciIter::new();
    let mut got = Vec::new();
    for _ in 0..8 {
        got.push(it.next().unwrap());
    }
    assert_eq!(got, vec![1, 1, 2, 3, 5, 8, 13, 21]);
    assert_eq!(got, fibonacci(8));
}

#[test]
fn try_fibonacci_agrees_with_fibonacci() {
    assert_eq!(try_fibonacci(0), Some(vec![]));
    assert_eq!(try_fibonacci(12), Some(fibonacci(12)));
}

#[test]
fn try_fibonacci_refuses_overflow() {
    if usize::BITS == 64 {
        // fib(93) = 12200160415121876738 fits, fib(94) does not.
        let v = try_fibonacci(92).unwrap();
        assert_eq!(v.len(), 92);
        assert_eq!(v[91], 7540113804746346429);
        assert_eq!(try_fibonacci(93), None);
        assert_eq!(try_fibonacci(1000), None);
    }
    if usize::BITS == 32 {
        assert!(try_fibonacci(45).is_some());
        assert_eq!(try_fibonacci(46), None);
    }
}
