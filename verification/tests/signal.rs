use pbmodular::dspmodules::dspmodule::Signal;
use pbmodular::dspmodules::sampledelay::delay_step;

#[test]
fn unwrap_single_gives_its_value() {
    let s: Signal<f32> = Signal::Single(0.25);
    assert_eq!(s.unwrap(), 0.25);
}

#[test]
fn unwrap_multi_of_length_one_gives_its_value() {
    let s: Signal<f32> = Signal::Multi(vec![-1.5]);
    assert_eq!(s.unwrap(), -1.5);
}

#[test]
fn unwrap_multi_of_single_is_one_element_vector() {
    let s: Signal<f32> = Signal::Single(2.0);
    assert_eq!(s.unwrap_multi(), vec![2.0]);
}

#[test]
fn unwrap_multi_of_multi_is_the_vector() {
    let s: Signal<f32> = Signal::Multi(vec![1.0, 2.0, 3.0]);
    assert_eq!(s.unwrap_multi(), vec![1.0, 2.0, 3.0]);
}

#[test]
fn unwrap_multi_of_empty_vector_is_empty() {
    let s: Signal<f32> = Signal::Multi(vec![]);
    assert_eq!(s.unwrap_multi(), Vec::<f32>::new());
}

#[test]
fn from_makes_a_single_signal() {
    let s: Signal<f32> = Signal::from(0.75);
    assert!(matches!(s, Signal::Single(v) if v == 0.75));
}

#[test]
fn from_then_unwrap_is_identity() {
    for v in [0.0f32, -3.5, 1e6] {
        assert_eq!(Signal::from(v).unwrap(), v);
    }
}

#[test]
fn unwrap_agrees_with_unwrap_multi() {
    let a: Signal<i32> = Signal::Multi(vec![9]);
    let b: Signal<i32> = Signal::Multi(vec![9]);
    assert_eq!(b.unwrap_multi(), vec![a.unwrap()]);
    let c: Signal<i32> = Signal::Single(4);
    let d: Signal<i32> = Signal::Single(4);
    assert_eq!(d.unwrap_multi(), vec![c.unwrap()]);
}

#[test]
fn as_string_of_empty() {
    let s: Signal<f32> = Signal::Empty(());
    assert_eq!(s.as_string(), "()");
}

#[test]
fn as_string_of_single() {
    let s: Signal<f32> = Signal::Single(1.5);
    assert_eq!(s.as_string(), "Single<1.5>");
}

#[test]
fn as_string_of_multi() {
    let s: Signal<f32> = Signal::Multi(vec![1.0, 0.5, -2.0]);
    assert_eq!(s.as_string(), "Multi<[1.0, 0.5, -2.0]>");
}

#[test]
fn as_string_of_multi_matches_vec_debug() {
    let v = vec![3u32, 14, 159];
    let expected = format!("Multi<{:?}>", v);
    assert_eq!(Signal::Multi(v).as_string(), expected);
}

#[test]
fn as_string_of_empty_multi() {
    let s: Signal<f32> = Signal::Multi(vec![]);
    assert_eq!(s.as_string(), "Multi<[]>");
}

#[test]
fn clone_keeps_variant_and_values() {
    let s: Signal<f32> = Signal::Multi(vec![1.0, 2.0]);
    let c = s.clone();
    assert_eq!(c.unwrap_multi(), vec![1.0, 2.0]);
    let e: Signal<f32> = Signal::Empty(());
    assert!(matches!(e.clone(), Signal::Empty(())));
}

#[test]
fn delay_step_hands_out_the_previous_input() {
    let mut held: Signal<f32> = Signal::Single(0.0);
    let inputs = [1.0f32, 2.0, 3.0, 4.0];
    let mut outputs = Vec::new();
    for x in inputs {
        outputs.push(delay_step(&mut held, Signal::Single(x)).unwrap());
    }
    assert_eq!(outputs, vec![0.0, 1.0, 2.0, 3.0]);
    assert_eq!(held.unwrap(), 4.0);
}

#[test]
fn delay_step_keeps_multichannel_signals() {
    let mut held: Signal<f32> = Signal::Empty(());
    let out = delay_step(&mut held, Signal::Multi(vec![1.0, 2.0]));
    assert!(matches!(out, Signal::Empty(())));
    assert_eq!(held.unwrap_multi(), vec![1.0, 2.0]);
}
