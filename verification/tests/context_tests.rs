use boinc_client::context::Context;

#[test]
fn pipeline_reads_and_writes_compose_in_order() {
    let ctx = Context::new(10u64);
    let (ctx, doubled) = ctx
        .compose()
        .bind(|d: &Option<u64>, _| d.map(|v| v * 2))
        .bind_mut(|d: Option<u64>, carried: Option<u64>| (d.map(|v| v + 1), carried))
        .assemble();
    assert_eq!(doubled, Some(20));
    assert_eq!(*ctx.raw(), Some(11));
}

#[test]
fn interleaved_mutations_serialize_with_no_partial_state() {
    // Two submitters alternate mutations; every read in between observes a
    // whole number of fully applied operations, never a torn one.
    let mut ctx = Context::new(Vec::<u64>::new());
    for round in 0..5u64 {
        ctx.run_mut_force(|mut v: Vec<u64>| {
            v.push(round * 2);
            (v, ())
        });
        let len_between = ctx.run_force(|v: &Vec<u64>| v.len());
        assert_eq!(len_between, (round as usize) * 2 + 1);
        ctx.run_mut_force(|mut v: Vec<u64>| {
            v.push(round * 2 + 1);
            (v, ())
        });
    }
    let finished = ctx.run_force(|v: &Vec<u64>| v.clone());
    let expected: Vec<u64> = (0..10).collect();
    assert_eq!(finished, expected);
}

#[test]
fn teardown_makes_every_operation_observe_state_gone() {
    let mut ctx = Context::new(5u64);
    ctx.close();
    let observed = ctx.run(|d: &Option<u64>| d.is_none());
    assert!(observed);
    let outcome = ctx.run_mut(|d: Option<u64>| {
        let gone = d.is_none();
        (d, gone)
    });
    assert!(outcome);
    assert!(ctx.raw().is_none());
}

#[test]
fn run_returns_the_operation_result() {
    let ctx = Context::new(String::from("abc"));
    let n = ctx.run(|d: &Option<String>| d.as_ref().map(|s| s.len()).unwrap_or(0));
    assert_eq!(n, 3);
    let (ctx2, got) = ctx.compose().run();
    assert_eq!(got, ());
    assert_eq!(*ctx2.raw(), Some(String::from("abc")));
}
