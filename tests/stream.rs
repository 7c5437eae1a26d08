use dft::stream::{collect_step, discard_step};

fn run(items: Vec<Result<u32, String>>) -> (Result<Vec<u32>, String>, Result<(), String>) {
    let mut kept: Vec<u32> = Vec::new();
    let mut collected: Result<(), String> = Ok(());
    for item in items.clone() {
        collected = collect_step(&mut kept, item);
        if collected.is_err() {
            break;
        }
    }
    let mut drained: Result<(), String> = Ok(());
    for item in items {
        drained = discard_step(item);
        if drained.is_err() {
            break;
        }
    }
    (collected.map(|_| kept), drained)
}

#[test]
fn discarding_agrees_with_collecting_on_success() {
    let (c, d) = run(vec![Ok(1), Ok(2), Ok(3)]);
    assert_eq!(c, Ok(vec![1, 2, 3]));
    assert_eq!(d, Ok(()));
}

#[test]
fn discarding_sees_a_failure_after_valid_batches() {
    let (c, d) = run(vec![Ok(1), Ok(2), Err("boom".to_string()), Err("later".to_string())]);
    assert_eq!(c, Err("boom".to_string()));
    assert_eq!(d, Err("boom".to_string()));
}

#[test]
fn empty_stream_succeeds() {
    let (c, d) = run(vec![]);
    assert_eq!(c, Ok(vec![]));
    assert_eq!(d, Ok(()));
}

#[test]
fn collect_step_keeps_prefix_on_failure() {
    let mut kept = vec![4u32];
    assert_eq!(collect_step(&mut kept, Err::<u32, i32>(5)), Err(5));
    assert_eq!(kept, vec![4]);
    assert_eq!(collect_step(&mut kept, Ok::<u32, i32>(6)), Ok(()));
    assert_eq!(kept, vec![4, 6]);
}
