use pollstate::stamp::UuidST;

#[test]
fn test_one_thread_uuid() {
    let mut locked_uuid = UuidST::new();
    let (initial_method_uuid, mut prev_data_uuid) = locked_uuid.get();
    let mut prev_uuid_obj = locked_uuid.clone();
    for _ in 0..100000 {
        locked_uuid.increment();
        let (method_uuid, data_uuid) = locked_uuid.get();

        assert_eq!(method_uuid, initial_method_uuid);
        assert!(data_uuid > prev_data_uuid);
        // Verify lexicographic sorting of strings.
        assert!(locked_uuid.get_data_uuid() > prev_uuid_obj.get_data_uuid());

        prev_data_uuid = data_uuid;
        prev_uuid_obj = locked_uuid.clone();
    }
}

#[test]
fn test_two_threads_uuid() {
    // Two pollers taking turns on one shared stamp; each checks the
    // stamp against what it observed on its own previous turn.
    let mut shared_uuid = UuidST::new();
    let (initial_method_uuid, mut prev_data_uuid) = shared_uuid.get();
    let mut prev_uuid_obj = shared_uuid.clone();
    let mut prev_uuid_obj_clone = shared_uuid.clone();

    for _ in 0..100000 {
        {
            shared_uuid.increment();
            let (method_uuid, data_uuid) = shared_uuid.get();

            assert_eq!(method_uuid, initial_method_uuid);
            assert!(data_uuid > prev_data_uuid);
            assert!(shared_uuid.get_data_uuid() > prev_uuid_obj.get_data_uuid());

            prev_data_uuid = data_uuid;
            prev_uuid_obj = shared_uuid.clone();
        }
        {
            shared_uuid.increment();
            let (method_uuid, data_uuid) = shared_uuid.get();

            assert_eq!(method_uuid, initial_method_uuid);
            assert!(data_uuid > prev_data_uuid);
            assert!(shared_uuid.get_data_uuid() > prev_uuid_obj_clone.get_data_uuid());

            prev_data_uuid = data_uuid;
            prev_uuid_obj_clone = shared_uuid.clone();
        }
    }
}

#[test]
fn test_ordering() {
    let mut a = UuidST::new();
    for _ in 0..100000 {
        let prev_a = a.clone();
        a.increment();

        // Test cloning.
        let same_a = a.clone();
        assert_eq!(a, same_a);
        assert_eq!(same_a, a);
        assert!(a <= same_a);
        assert!(a >= same_a);
        assert_eq!(same_a, same_a);
        assert_eq!(same_a.get_data_uuid(), a.get_data_uuid());
        assert_eq!(same_a.get_method_uuid(), a.get_method_uuid());

        // Repeat same cloning tests with individual components with get()
        let (a_method_uuid, a_data_uuid) = a.get();
        let (same_a_method_uuid, same_a_data_uuid) = same_a.get();
        assert_eq!(a_method_uuid, same_a_method_uuid);
        assert_eq!(a_data_uuid, same_a_data_uuid);
        assert!(a_method_uuid <= same_a_method_uuid);
        assert!(a_data_uuid <= same_a_data_uuid);
        assert!(a_method_uuid >= same_a_method_uuid);
        assert!(a_data_uuid >= same_a_data_uuid);

        // Test various operators
        assert_eq!(prev_a, prev_a);
        assert_ne!(prev_a, a);
        assert!(prev_a != a);
        assert!(prev_a < a);
        assert!(a > prev_a);

        // Repeat tests with the cloned one.
        assert_ne!(prev_a, same_a);
        assert!(prev_a != same_a);
        assert!(prev_a < same_a);
        assert!(same_a > prev_a);
    }
}

#[test]
fn monotonic_run_with_injected_clock() {
    // A controllable, strictly advancing sequence source: every sequence
    // id grows, the instance id never changes, and the text encodings
    // sort exactly as the values do.
    let mut stamp = UuidST::new_with(7, 0);
    let mut prev_data: u128 = 0;
    let mut prev_text = stamp.get_data_uuid();
    for step in 0..100000u128 {
        let next = (step + 1) * 3;
        stamp.increment_with(next, 999);
        let (method_id, data_id) = stamp.get();
        assert_eq!(method_id, 7);
        assert_eq!(data_id, next);
        assert!(data_id > prev_data);
        let text = stamp.get_data_uuid();
        assert!(text > prev_text);
        prev_data = data_id;
        prev_text = text;
    }
}

#[test]
fn clock_regression_mints_new_instance() {
    let mut stamp = UuidST::new_with(7, 100);

    // The clock source hands back a value not greater than the previous
    // sequence id: the instance id is replaced, never an error.
    stamp.increment_with(100, 42);
    let (method_id, data_id) = stamp.get();
    assert_eq!(method_id, 42);
    assert_eq!(data_id, 100);

    // Subsequent increments resume strict monotonic growth under the new
    // instance id.
    stamp.increment_with(101, 1111);
    assert_eq!(stamp.get(), (42, 101));
    stamp.increment_with(250, 2222);
    assert_eq!(stamp.get(), (42, 250));

    // A strictly smaller value is a regression too.
    stamp.increment_with(10, 77);
    assert_eq!(stamp.get(), (77, 10));
}

#[test]
fn set_adopts_snapshot() {
    let mut a = UuidST::new_with(1, 2);
    let b = UuidST::new_with(33, 44);
    a.set(&b);
    assert_eq!(a.get(), (33, 44));
    assert_eq!(a, b);
}

#[test]
fn text_encoding_exact_values() {
    // 0 encodes as 26 zero symbols; small values fill in from the right:
    // 42 << 2 == 168 == 5 * 32 + 8, so the last two symbols are "58".
    let zero = UuidST::new_with(0, 0);
    assert_eq!(zero.get_data_uuid(), "00000000000000000000000000");
    assert_eq!(zero.get_method_uuid(), "00000000000000000000000000");

    let stamp = UuidST::new_with(42, 31);
    assert_eq!(stamp.get_method_uuid(), "00000000000000000000000058");
    // 31 << 2 == 124 == 3 * 32 + 28; symbol 28 is 'S'.
    assert_eq!(stamp.get_data_uuid(), "0000000000000000000000003S");

    // The largest value uses the top symbol everywhere: every five-bit
    // group of (2^128 - 1) << 2 is 31 ('V'), except the last, which keeps
    // the two-bit pad: 11100 is 28 ('S').
    let max = UuidST::new_with(0, u128::MAX);
    assert_eq!(max.get_data_uuid(), "VVVVVVVVVVVVVVVVVVVVVVVVVS");

    // The library's text form is exactly the outside encoder's output.
    assert_eq!(
        stamp.get_method_uuid(),
        data_encoding::BASE32HEX_NOPAD.encode(&42u128.to_be_bytes())
    );
    assert_eq!(
        max.get_data_uuid(),
        data_encoding::BASE32HEX_NOPAD.encode(&u128::MAX.to_be_bytes())
    );
}

#[test]
fn text_encoding_orders_as_values() {
    // Pairs around carry boundaries: the encoded strings must sort
    // exactly as the numbers do.
    let pairs: [(u128, u128); 6] = [
        (0, 1),
        (31, 32),
        (255, 256),
        (u64::MAX as u128, u64::MAX as u128 + 1),
        (u128::MAX - 1, u128::MAX),
        (1 << 100, (1 << 100) + 1),
    ];
    for (lo, hi) in pairs {
        let a = UuidST::new_with(0, lo);
        let b = UuidST::new_with(0, hi);
        assert!(a.get_data_uuid() < b.get_data_uuid());
        assert_ne!(a.get_data_uuid(), b.get_data_uuid());
    }
}
