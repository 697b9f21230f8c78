use fibonacci_proof::fib::{fibonacci, MAX_N};
use fibonacci_proof::kernel::{run_kernel, KernelError};
use fibonacci_proof::public_values::{PublicValues, ENCODED_LEN};

#[test]
fn fibonacci_base_cases() {
    assert_eq!(fibonacci(0), (0, 1));
    assert_eq!(fibonacci(1), (1, 1));
    assert_eq!(fibonacci(2), (1, 2));
}

#[test]
fn fibonacci_of_ten() {
    assert_eq!(fibonacci(10), (55, 89));
}

#[test]
fn fibonacci_wraps_at_32_bits() {
    // fib(47) = 2971215073 still fits; fib(48) = 4807526976 wraps.
    assert_eq!(fibonacci(47), (2971215073, 4807526976u64 as u32));
    assert_eq!(fibonacci(47).1, 512559680);
}

#[test]
fn kernel_scenario_zero() {
    let out = run_kernel(0).unwrap();
    assert_eq!(out.result, PublicValues { n: 0, a: 0, b: 1 });
    assert_eq!(PublicValues::decode(&out.committed), Some(PublicValues { n: 0, a: 0, b: 1 }));
}

#[test]
fn kernel_scenario_one() {
    let out = run_kernel(1).unwrap();
    assert_eq!((out.result.a, out.result.b), (1, 1));
}

#[test]
fn kernel_scenario_ten() {
    let out = run_kernel(10).unwrap();
    assert_eq!(out.result, PublicValues { n: 10, a: 55, b: 89 });
    assert_eq!(PublicValues::decode(&out.committed), Some(out.result));
}

#[test]
fn kernel_accepts_the_bound() {
    let out = run_kernel(MAX_N).unwrap();
    assert_eq!(out.result.n, 10000);
    assert_eq!((out.result.a, out.result.b), fibonacci(10000));
    assert_eq!(PublicValues::decode(&out.committed), Some(out.result));
}

#[test]
fn kernel_rejects_above_the_bound() {
    assert_eq!(run_kernel(10001).err(), Some(KernelError::InputTooLarge));
    assert_eq!(run_kernel(u32::MAX).err(), Some(KernelError::InputTooLarge));
}

#[test]
fn kernel_round_trip_over_a_range() {
    for n in 0..200u32 {
        let out = run_kernel(n).unwrap();
        assert_eq!(PublicValues::decode(&out.committed), Some(out.result));
    }
}

#[test]
fn encoding_layout() {
    let bytes = PublicValues { n: 10, a: 55, b: 0x01020304 }.encode();
    assert_eq!(bytes.len(), ENCODED_LEN);
    let mut expected = vec![0u8; 96];
    expected[31] = 10;
    expected[63] = 55;
    expected[92] = 1;
    expected[93] = 2;
    expected[94] = 3;
    expected[95] = 4;
    assert_eq!(bytes, expected);
}

#[test]
fn decode_refuses_truncated_and_padded_input() {
    let bytes = PublicValues { n: 10, a: 55, b: 89 }.encode();
    assert_eq!(PublicValues::decode(&bytes[..95]), None);
    let mut longer = bytes.clone();
    longer.push(0);
    assert_eq!(PublicValues::decode(&longer), None);
    let mut dirty = bytes.clone();
    dirty[0] = 1;
    assert_eq!(PublicValues::decode(&dirty), None);
    assert_eq!(PublicValues::decode(&[]), None);
}
