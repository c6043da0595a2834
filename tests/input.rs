use fgsim::input::{ActionBuffer, FgInput};

#[test]
fn update_buffer() {
    let input = ActionBuffer::new(1, true).unwrap();

    assert_eq!(4, input.buff_time);
    let input = input.update_buffer().unwrap();
    assert_eq!(3, input.buff_time);
    let input = input.update_buffer().unwrap();
    assert_eq!(2, input.buff_time);
    let input = input.update_buffer().unwrap();
    assert_eq!(1, input.buff_time);
    let input = input.update_buffer();
    assert_eq!(None, input);
}

#[test]
fn compare() {
    let input1 = ActionBuffer::new(0, false);
    let input2 = ActionBuffer::new(1, false);
    let input3 = ActionBuffer::new(-1, false);
    let input4 = Option::<ActionBuffer>::None;
    let input5 = ActionBuffer::new(-1, true);
    let input6 = ActionBuffer::new(1, true);
    let input7 = ActionBuffer::new(0, false);

    assert_eq!(ActionBuffer::compare(input1, input2), input2);
    assert_eq!(ActionBuffer::compare(input2, input3), input3);
    assert_eq!(ActionBuffer::compare(input2, input1), input1);
    assert_eq!(ActionBuffer::compare(input2, input4), input2);

    assert_eq!(ActionBuffer::compare(input5, input1), input5);

    assert_ne!(ActionBuffer::compare(input5, input6), input5);
    assert_eq!(ActionBuffer::compare(input5, input6), input6);
    assert_eq!(ActionBuffer::compare(input6, input7), input6);
}

#[test]
fn buffer_lives_four_ticks() {
    for k in 0..8u8 {
        let mut b = ActionBuffer::new(-1, true);
        for _ in 0..k {
            b = b.and_then(|x| x.update_buffer());
        }
        if k < 4 {
            assert_eq!(b, Some(ActionBuffer { movement: -1, buff_time: 4 - k }));
        } else {
            assert_eq!(b, None);
        }
    }
}

#[test]
fn no_press_no_buffer() {
    assert_eq!(ActionBuffer::new(1, false), None);
    assert_eq!(FgInput::new(1, 0, false, false).to_buffer(), None);
    assert_eq!(
        FgInput::new(-1, 0, true, false).to_buffer(),
        Some(ActionBuffer { movement: -1, buff_time: 4 })
    );
}

#[test]
fn newer_buffer_wins_older_survives_absence() {
    let old = Some(ActionBuffer { movement: 1, buff_time: 2 });
    let new = Some(ActionBuffer { movement: 0, buff_time: 4 });
    assert_eq!(ActionBuffer::compare(old, new), new);
    assert_eq!(ActionBuffer::compare(None, new), new);
    assert_eq!(ActionBuffer::compare(old, None), old);
    assert_eq!(ActionBuffer::compare(None, None), None);
}
