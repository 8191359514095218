use reactive_site::reactive::{Runtime, Value};

fn as_int(v: &Value) -> i64 {
    match v {
        Value::Int(n) => *n,
        _ => panic!("expected an integer cell"),
    }
}

fn as_text(v: &Value) -> String {
    match v {
        Value::Text(s) => s.clone(),
        _ => panic!("expected a text cell"),
    }
}

#[test]
fn cells_hold_their_values() {
    let mut rt = Runtime::new();
    let a = rt.create_cell(Value::Int(0));
    let b = rt.create_cell(Value::Text("hi".to_string()));
    let c = rt.create_cell(Value::Flag(false));
    assert_eq!(a, 0);
    assert_eq!(b, 1);
    assert_eq!(c, 2);
    assert_eq!(as_int(rt.read(a)), 0);
    assert_eq!(as_text(rt.read(b)), "hi");
    assert!(matches!(rt.read(c), Value::Flag(false)));
}

#[test]
fn write_replaces_the_value() {
    let mut rt = Runtime::new();
    let a = rt.create_cell(Value::Int(0));
    rt.write(a, Value::Int(41));
    assert_eq!(as_int(rt.read(a)), 41);
    rt.write(a, Value::Int(42));
    assert_eq!(as_int(rt.read(a)), 42);
}

#[test]
fn write_notifies_subscribed_views() {
    let mut rt = Runtime::new();
    let a = rt.create_cell(Value::Int(0));
    let b = rt.create_cell(Value::Int(0));
    rt.track(a, 7);
    rt.track(a, 9);
    rt.track(b, 9);
    let mut dirty = rt.write(a, Value::Int(1));
    dirty.sort();
    assert_eq!(dirty, vec![7, 9]);
    let dirty_b = rt.write(b, Value::Int(1));
    assert_eq!(dirty_b, vec![9]);
}

#[test]
fn repeated_reads_notify_once() {
    let mut rt = Runtime::new();
    let a = rt.create_cell(Value::Int(5));
    let v1 = rt.read_in_render(a, 3);
    let v2 = rt.read_in_render(a, 3);
    assert_eq!(as_int(&v1), 5);
    assert_eq!(as_int(&v2), 5);
    let dirty = rt.write(a, Value::Int(6));
    assert_eq!(dirty, vec![3]);
}

#[test]
fn a_render_pass_rebuilds_subscriptions() {
    let mut rt = Runtime::new();
    let a = rt.create_cell(Value::Int(0));
    let b = rt.create_cell(Value::Int(0));
    rt.begin_render(1);
    rt.read_in_render(a, 1);
    rt.read_in_render(b, 1);
    assert_eq!(rt.write(a, Value::Int(1)), vec![1]);
    // the next pass reads only `b`, so `a` no longer notifies view 1
    rt.begin_render(1);
    rt.read_in_render(b, 1);
    assert_eq!(rt.write(a, Value::Int(2)), Vec::<usize>::new());
    assert_eq!(rt.write(b, Value::Int(2)), vec![1]);
}

#[test]
fn begin_render_keeps_other_views() {
    let mut rt = Runtime::new();
    let a = rt.create_cell(Value::Int(0));
    rt.track(a, 1);
    rt.track(a, 2);
    rt.begin_render(1);
    assert_eq!(rt.write(a, Value::Int(1)), vec![2]);
}

#[test]
fn untracked_read_does_not_subscribe() {
    let mut rt = Runtime::new();
    let a = rt.create_cell(Value::Int(0));
    assert_eq!(as_int(rt.read(a)), 0);
    assert_eq!(rt.write(a, Value::Int(1)), Vec::<usize>::new());
}
