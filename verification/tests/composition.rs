use kleisli::{kleisli_compose, ApplyKleisliCompose, KleisliCompose};
use std::cell::Cell;
use std::rc::Rc;

#[test]
fn clone_it() {
    let db = vec![(1, 2), (2, 3), (3, 4), (1, 5), (5, 7)];
    let iter = db.into_iter();
    let iter2 = iter.clone();
    let iter3 = iter.clone();
    let res: Vec<_> = iter
        .flat_map(|i| {
            let iter2 = iter2.clone();
            let iter3 = iter3.clone();
            ApplyKleisliCompose::new(
                i,
                kleisli_compose(
                    move |t: (usize, usize)| {
                        iter3
                            .clone()
                            .map(|x| x.1)
                            .filter(move |x| *x == t.0)
                            .collect::<Vec<_>>()
                    },
                    move |s| {
                        iter2
                            .clone()
                            .map(|x| x.1)
                            .filter(move |x| *x == s)
                            .collect::<Vec<_>>()
                    },
                ),
            )
            .next()
        })
        .collect();
    println!("{res:?}");
    assert_eq!(res, vec![2, 3, 5]);
}

#[test]
fn composing_calls_no_arrow() {
    let f = |_: u32| -> Vec<u32> { panic!("the first arrow was called") };
    let g = |_: u32| -> Vec<u32> { panic!("the second arrow was called") };
    let _by_function = kleisli_compose(f, g);
    let _by_constructor = KleisliCompose::new(f, g);
}

#[test]
fn applying_calls_no_arrow_before_the_first_pull() {
    let calls = Rc::new(Cell::new(0u32));
    let seen_by_f = calls.clone();
    let seen_by_g = calls.clone();
    let f = move |a: u32| {
        seen_by_f.set(seen_by_f.get() + 1);
        vec![a]
    };
    let g = move |b: u32| {
        seen_by_g.set(seen_by_g.get() + 1);
        vec![b]
    };
    let mut applied = ApplyKleisliCompose::new(9, kleisli_compose(f, g));
    assert_eq!(calls.get(), 0);
    assert_eq!(applied.next(), Some(9));
    assert_eq!(calls.get(), 2);
}

#[test]
fn a_pull_yields_the_head_of_the_flattened_sequence() {
    let f = |_: u8| vec!["b1", "b2"];
    let g = |b: &'static str| {
        if b == "b1" {
            vec!["c1", "c2"]
        } else {
            vec!["c3"]
        }
    };
    let mut applied = ApplyKleisliCompose::new(0, kleisli_compose(f, g));
    assert_eq!(applied.next(), Some("c1"));
}

#[test]
fn repeated_pulls_yield_the_same_head() {
    let f = |a: i32| vec![a, a + 1];
    let g = |b: i32| {
        if b == 4 {
            vec![40, 41]
        } else {
            vec![50]
        }
    };
    let mut applied = ApplyKleisliCompose::new(4, kleisli_compose(f, g));
    let first = applied.next();
    assert_eq!(first, Some(40));
    for _ in 0..5 {
        assert_eq!(applied.next(), first);
    }
}

#[test]
fn empty_results_of_the_second_arrow_are_skipped() {
    let f = |a: u32| vec![a, a + 1, a + 2];
    let g = |b: u32| if b < 12 { vec![] } else { vec![b * 2, b * 3] };
    let mut applied = ApplyKleisliCompose::new(10, kleisli_compose(f, g));
    assert_eq!(applied.next(), Some(24));
}

#[test]
fn an_empty_first_arrow_yields_nothing() {
    let called = Rc::new(Cell::new(false));
    let seen = called.clone();
    let f = |_: u32| Vec::<u32>::new();
    let g = move |b: u32| {
        seen.set(true);
        vec![b]
    };
    let mut applied = ApplyKleisliCompose::new(1, kleisli_compose(f, g));
    assert_eq!(applied.next(), None);
    assert_eq!(applied.next(), None);
    assert!(!called.get());
}

#[test]
fn an_always_empty_second_arrow_yields_nothing() {
    let f = |a: u32| vec![a, a, a];
    let g = |_: u32| Vec::<u32>::new();
    let mut applied = ApplyKleisliCompose::new(1, kleisli_compose(f, g));
    assert_eq!(applied.next(), None);
    assert_eq!(applied.next(), None);
    assert_eq!(applied.next(), None);
}

#[test]
fn the_second_arrow_stops_at_its_first_result() {
    let visited = Rc::new(Cell::new(0u32));
    let seen = visited.clone();
    let f = |a: u32| vec![a, a + 1, a + 2, a + 3];
    let g = move |b: u32| {
        seen.set(seen.get() + 1);
        if b == 1 {
            vec![b]
        } else {
            vec![]
        }
    };
    let mut applied = ApplyKleisliCompose::new(0, kleisli_compose(f, g));
    assert_eq!(applied.next(), Some(1));
    assert_eq!(visited.get(), 2);
}

#[test]
fn every_pull_calls_the_first_arrow_again() {
    let calls = Rc::new(Cell::new(0u32));
    let seen = calls.clone();
    let f = move |a: u32| {
        seen.set(seen.get() + 1);
        vec![a]
    };
    let g = |b: u32| vec![b + 1];
    let mut applied = ApplyKleisliCompose::new(6, kleisli_compose(f, g));
    for pulls in 1..=4 {
        assert_eq!(applied.next(), Some(7));
        assert_eq!(calls.get(), pulls);
    }
}

#[test]
fn an_arrow_with_state_is_asked_anew_on_every_pull() {
    let mut turn = 0u32;
    let f = move |a: u32| {
        turn += 1;
        vec![a + turn]
    };
    let g = |b: u32| vec![b];
    let mut applied = ApplyKleisliCompose::new(100, kleisli_compose(f, g));
    assert_eq!(applied.next(), Some(101));
    assert_eq!(applied.next(), Some(102));
}

#[test]
fn items_need_not_be_copyable() {
    let f = |n: usize| vec![String::new(), "x".repeat(n)];
    let g = |s: String| if s.is_empty() { vec![] } else { vec![s.clone(), s] };
    let mut applied = ApplyKleisliCompose::new(3, kleisli_compose(f, g));
    assert_eq!(applied.next(), Some(String::from("xxx")));
}

fn heads_of_both_nestings(
    f: fn(u32) -> Vec<u32>,
    g: fn(u32) -> Vec<u32>,
    h: fn(u32) -> Vec<u32>,
    a: u32,
) -> (Option<u32>, Option<u32>) {
    let f_then_g = move |x: u32| {
        ApplyKleisliCompose::new(x, kleisli_compose(f, g))
            .next()
            .into_iter()
            .collect::<Vec<_>>()
    };
    let g_then_h = move |x: u32| {
        ApplyKleisliCompose::new(x, kleisli_compose(g, h))
            .next()
            .into_iter()
            .collect::<Vec<_>>()
    };
    let left = ApplyKleisliCompose::new(a, kleisli_compose(f_then_g, h)).next();
    let right = ApplyKleisliCompose::new(a, kleisli_compose(f, g_then_h)).next();
    (left, right)
}

#[test]
fn both_nestings_yield_the_same_head() {
    fn f(a: u32) -> Vec<u32> {
        vec![a + 1, a + 2]
    }
    fn g(b: u32) -> Vec<u32> {
        if b % 2 == 0 {
            vec![]
        } else {
            vec![b * 10, b * 10 + 1]
        }
    }
    fn h(c: u32) -> Vec<u32> {
        vec![c + 1000, c + 2000]
    }
    assert_eq!(heads_of_both_nestings(f, g, h, 1), (Some(1030), Some(1030)));
    assert_eq!(heads_of_both_nestings(f, g, h, 2), (Some(1030), Some(1030)));
}

#[test]
fn both_nestings_are_empty_together() {
    fn f(a: u32) -> Vec<u32> {
        vec![a, a + 1]
    }
    fn g(b: u32) -> Vec<u32> {
        vec![b, b]
    }
    fn none(_: u32) -> Vec<u32> {
        vec![]
    }
    assert_eq!(heads_of_both_nestings(f, g, none, 5), (None, None));
    assert_eq!(heads_of_both_nestings(none, g, f, 5), (None, None));
    assert_eq!(heads_of_both_nestings(f, none, g, 5), (None, None));
}

#[test]
fn nestings_differ_where_the_last_arrow_drops_the_head() {
    fn f(a: u32) -> Vec<u32> {
        vec![a]
    }
    fn g(b: u32) -> Vec<u32> {
        vec![b + 1, b + 2]
    }
    fn h(c: u32) -> Vec<u32> {
        if c == 1 {
            vec![]
        } else {
            vec![c * 100]
        }
    }
    assert_eq!(heads_of_both_nestings(f, g, h, 0), (None, Some(200)));
}

#[test]
fn nested_compositions_are_built_without_calling_an_arrow() {
    let calls = Rc::new(Cell::new(0u32));
    let (in_f, in_g, in_h) = (calls.clone(), calls.clone(), calls.clone());
    let f = move |a: u32| {
        in_f.set(in_f.get() + 1);
        vec![a]
    };
    let g = move |b: u32| {
        in_g.set(in_g.get() + 1);
        vec![b]
    };
    let h = move |c: u32| {
        in_h.set(in_h.get() + 1);
        vec![c]
    };
    let (f2, g2, h2) = (f.clone(), g.clone(), h.clone());
    let f_then_g = move |x: u32| {
        ApplyKleisliCompose::new(x, kleisli_compose(f.clone(), g.clone()))
            .next()
            .into_iter()
            .collect::<Vec<_>>()
    };
    let g_then_h = move |x: u32| {
        ApplyKleisliCompose::new(x, kleisli_compose(g2.clone(), h2.clone()))
            .next()
            .into_iter()
            .collect::<Vec<_>>()
    };
    let left = kleisli_compose(f_then_g, h);
    let right = kleisli_compose(f2, g_then_h);
    assert_eq!(calls.get(), 0);
    let mut left = ApplyKleisliCompose::new(8, left);
    let mut right = ApplyKleisliCompose::new(8, right);
    assert_eq!(calls.get(), 0);
    assert_eq!(left.next(), Some(8));
    assert_eq!(right.next(), Some(8));
    assert_eq!(calls.get(), 6);
}

#[test]
fn a_lookup_chain_emits_the_first_match() {
    let source = vec![(7, 70), (1, 10), (3, 30), (1, 11)];
    let source2 = vec![11, 10, 5, 10];
    let f = move |t: (u32, u32)| {
        source
            .iter()
            .filter(|x| x.0 == t.0)
            .map(|x| x.1)
            .collect::<Vec<_>>()
    };
    let g = move |s: u32| {
        source2
            .iter()
            .copied()
            .filter(|x| *x == s)
            .collect::<Vec<_>>()
    };
    let mut applied = ApplyKleisliCompose::new((1, 2), kleisli_compose(f, g));
    let emitted: Vec<u32> = applied.next().into_iter().collect();
    assert_eq!(emitted, vec![10]);
    assert_eq!(applied.next(), Some(10));
}
