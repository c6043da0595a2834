use fgsim::timer::Timer;

#[test]
fn step() {
    let timer = Timer::Unlimited;
    assert_eq!(Timer::Unlimited, timer);
    timer.step();
    assert_eq!(Timer::Unlimited, timer);

    let timer = Timer::Limited(120);
    assert_eq!(Timer::Limited(120), timer);
    let timer = timer.step();
    assert_eq!(Timer::Limited(119), timer);
    let timer = timer.step();
    assert_eq!(Timer::Limited(118), timer);
    let timer = timer.step();
    assert_eq!(Timer::Limited(117), timer);
    let timer = timer.step();
    assert_eq!(Timer::Limited(116), timer);
    let timer = timer.step();
    assert_eq!(Timer::Limited(115), timer);
}

#[test]
fn seconds() {
    let timer = Timer::Unlimited;
    assert_eq!(timer.seconds(), 0);
    timer.step();
    assert_eq!(timer.seconds(), 0);

    let timer = Timer::Limited(240);
    assert_eq!(timer.seconds(), 4);
    let timer = timer.step();
    assert_eq!(timer.seconds(), 4);

    let timer = Timer::Limited(62);
    assert_eq!(timer.seconds(), 2);
    let timer = timer.step();
    assert_eq!(timer.seconds(), 2);
    let timer = timer.step();
    assert_eq!(timer.seconds(), 1);
    let timer = timer.step();
    assert_eq!(timer.seconds(), 1);
}

#[test]
fn is_over() {
    let timer = Timer::Unlimited;
    assert!(!timer.is_over());

    let timer = Timer::Limited(2);
    assert!(!timer.is_over());
    let timer = timer.step();
    assert!(!timer.is_over());
    let timer = timer.step();
    assert!(timer.is_over());
}

#[test]
fn zero_clock_is_over_and_unlimited_never() {
    assert!(Timer::Limited(0).is_over());
    let mut timer = Timer::Unlimited;
    for _ in 0..1000 {
        assert!(!timer.is_over());
        timer = timer.step();
    }
}

#[test]
fn seconds_round_up() {
    assert_eq!(Timer::Limited(61).seconds(), 2);
    assert_eq!(Timer::Limited(60).seconds(), 1);
    assert_eq!(Timer::Limited(1).seconds(), 1);
    assert_eq!(Timer::Limited(0).seconds(), 0);
    assert_eq!(Timer::Limited(3600).seconds(), 60);
}

#[test]
fn zero_clock_stays_at_zero() {
    assert_eq!(Timer::Limited(0).step(), Timer::Limited(0));
    assert_eq!(Timer::Limited(1).step(), Timer::Limited(0));
}
