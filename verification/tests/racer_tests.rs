use sn_tracer::racer::pick_winner;

fn win(name: &str) -> Option<String> {
    Some(name.to_string())
}

#[test]
fn single_success_wins_wherever_it_completes() {
    // N candidates, exactly one acknowledges: the session binds to it no
    // matter where the losers fall in the completion order.
    for i in 0..4 {
        let mut results: Vec<Option<String>> = vec![None, None, None, None];
        results[i] = win("/dev/ttyUSB7");
        assert_eq!(pick_winner(&results), win("/dev/ttyUSB7"));
    }
}

#[test]
fn first_completed_success_wins() {
    let results = vec![None, win("slow"), win("slower")];
    assert_eq!(pick_winner(&results), win("slow"));
}

#[test]
fn no_success_means_no_device_found() {
    assert_eq!(pick_winner(&vec![None, None]), None);
    assert_eq!(pick_winner(&Vec::new()), None);
}
