use time_cell::{
    load_always_success_from_script_args, load_type_id_from_script_args,
    locate_first_type_id_output_index, program_entry, validate_type_id, Error, InputCell,
    OutputCell, Transition,
};

const OWN_HASH: [u8; 32] = [7u8; 32];
const LOCK_HASH: [u8; 32] = [9u8; 32];
const OTHER_LOCK_HASH: [u8; 32] = [13u8; 32];

/// The serialized form of a consumed input reference paying the given
/// capacity: an opaque reference part followed by the capacity bytes.
fn serialized_input(capacity: u64) -> Vec<u8> {
    let mut v = vec![0u8; 36];
    v.extend_from_slice(&capacity.to_le_bytes());
    v
}

fn ungoverned_input(capacity: u64) -> InputCell {
    InputCell {
        serialized: serialized_input(capacity),
        kind: None,
    }
}

fn governed_input(capacity: u64) -> InputCell {
    InputCell {
        serialized: serialized_input(capacity),
        kind: Some(OWN_HASH),
    }
}

fn governed_output(lock_hash: [u8; 32]) -> OutputCell {
    OutputCell {
        lock_hash,
        kind: Some(OWN_HASH),
    }
}

fn ungoverned_output(lock_hash: [u8; 32]) -> OutputCell {
    OutputCell {
        lock_hash,
        kind: None,
    }
}

/// The 32-byte type id a mint must declare for the given first input and
/// governed output index.
fn derived_type_id(first_input: &[u8], index: u64) -> [u8; 32] {
    let mut data = first_input.to_vec();
    data.extend_from_slice(&index.to_le_bytes());
    ckb_hash::blake2b_256(&data)
}

/// Well-formed 64-byte args: the declared type id followed by the required
/// authorization hash.
fn args_of(type_id: &[u8; 32], lock_hash: &[u8; 32]) -> Vec<u8> {
    let mut args = type_id.to_vec();
    args.extend_from_slice(lock_hash);
    args
}

#[test]
fn create_success() {
    let input = ungoverned_input(1000);
    let type_id = derived_type_id(&input.serialized, 0);
    let tx = Transition {
        inputs: vec![input],
        outputs: vec![governed_output(LOCK_HASH)],
        args: args_of(&type_id, &LOCK_HASH),
    };
    assert_eq!(program_entry(&tx, &OWN_HASH), 0);
}

#[test]
fn create_on_second_output() {
    let input = ungoverned_input(2000);
    let type_id = derived_type_id(&input.serialized, 1);
    let tx = Transition {
        inputs: vec![input],
        outputs: vec![ungoverned_output(OTHER_LOCK_HASH), governed_output(LOCK_HASH)],
        args: args_of(&type_id, &LOCK_HASH),
    };
    assert_eq!(program_entry(&tx, &OWN_HASH), 0);
}

#[test]
fn create_fail() {
    let tx = Transition {
        inputs: vec![ungoverned_input(1000)],
        outputs: vec![governed_output(LOCK_HASH)],
        args: vec![0x42u8; 64],
    };
    assert_eq!(program_entry(&tx, &OWN_HASH), 21);
}

#[test]
fn one_in_one_out_with_wrong_args() {
    let tx = Transition {
        inputs: vec![governed_input(1000)],
        outputs: vec![governed_output(LOCK_HASH)],
        args: vec![0u8; 4],
    };
    assert_eq!(program_entry(&tx, &OWN_HASH), 22);
}

#[test]
fn invalid_type_id_lock() {
    let input = ungoverned_input(1000);
    let type_id = derived_type_id(&input.serialized, 0);
    let tx = Transition {
        inputs: vec![input],
        outputs: vec![governed_output(OTHER_LOCK_HASH)],
        args: args_of(&type_id, &LOCK_HASH),
    };
    assert_eq!(program_entry(&tx, &OWN_HASH), 23);
}

#[test]
fn udpate_success() {
    // On an update the declared type id is carried forward unchecked: any
    // 32-byte value passes, and no digest is recomputed.
    let arbitrary_id = [0x5au8; 32];
    let tx = Transition {
        inputs: vec![governed_input(1000)],
        outputs: vec![governed_output(LOCK_HASH)],
        args: args_of(&arbitrary_id, &LOCK_HASH),
    };
    assert_eq!(program_entry(&tx, &OWN_HASH), 0);
}

#[test]
fn not_allow_destroy() {
    let arbitrary_id = [0x5au8; 32];
    let tx = Transition {
        inputs: vec![governed_input(1000)],
        outputs: vec![ungoverned_output(LOCK_HASH)],
        args: args_of(&arbitrary_id, &LOCK_HASH),
    };
    assert_eq!(program_entry(&tx, &OWN_HASH), 20);
}

#[test]
fn two_governed_inputs_rejected() {
    let arbitrary_id = [0x5au8; 32];
    let tx = Transition {
        inputs: vec![governed_input(1000), governed_input(2000)],
        outputs: vec![governed_output(LOCK_HASH)],
        args: args_of(&arbitrary_id, &LOCK_HASH),
    };
    assert_eq!(program_entry(&tx, &OWN_HASH), 20);
}

#[test]
fn two_governed_outputs_rejected() {
    let input = ungoverned_input(1000);
    let type_id = derived_type_id(&input.serialized, 0);
    let tx = Transition {
        inputs: vec![input],
        outputs: vec![governed_output(LOCK_HASH), governed_output(LOCK_HASH)],
        args: args_of(&type_id, &LOCK_HASH),
    };
    assert_eq!(program_entry(&tx, &OWN_HASH), 20);
}

#[test]
fn mint_without_any_input_rejected() {
    // A mint needs the transition's very first input as derivation seed; a
    // transition with no inputs at all surfaces the read layer's
    // out-of-bound code.
    let arbitrary_id = [0x5au8; 32];
    let tx = Transition {
        inputs: vec![],
        outputs: vec![governed_output(LOCK_HASH)],
        args: args_of(&arbitrary_id, &LOCK_HASH),
    };
    assert_eq!(program_entry(&tx, &OWN_HASH), 1);
}

#[test]
fn mint_with_undigested_args_rejected() {
    // Declaring the raw seed bytes instead of their digest must fail: the
    // declared identity has to be the digest itself.
    let input = ungoverned_input(1000);
    let mut seed = input.serialized.clone();
    seed.extend_from_slice(&0u64.to_le_bytes());
    let mut raw_id = [0u8; 32];
    raw_id.copy_from_slice(&seed[0..32]);
    let tx = Transition {
        inputs: vec![input],
        outputs: vec![governed_output(LOCK_HASH)],
        args: args_of(&raw_id, &LOCK_HASH),
    };
    assert_eq!(program_entry(&tx, &OWN_HASH), 21);
}

#[test]
fn short_args_rejected_before_cardinality() {
    // Even a destroy-shaped transition reports the args length first: the
    // declared identity is loaded before any rule runs.
    let tx = Transition {
        inputs: vec![governed_input(1000)],
        outputs: vec![],
        args: vec![1u8; 16],
    };
    assert_eq!(program_entry(&tx, &OWN_HASH), 22);
}

#[test]
fn update_missing_lock_half_rejected() {
    // 32 args bytes are enough for the identity but not for the required
    // authorization hash.
    let tx = Transition {
        inputs: vec![governed_input(1000)],
        outputs: vec![governed_output(LOCK_HASH)],
        args: vec![0x5au8; 32],
    };
    assert_eq!(program_entry(&tx, &OWN_HASH), 22);
}

#[test]
fn update_with_wrong_lock_rejected() {
    let arbitrary_id = [0x5au8; 32];
    let tx = Transition {
        inputs: vec![governed_input(1000)],
        outputs: vec![governed_output(OTHER_LOCK_HASH)],
        args: args_of(&arbitrary_id, &LOCK_HASH),
    };
    assert_eq!(program_entry(&tx, &OWN_HASH), 23);
}

#[test]
fn validate_type_id_accepts_matching_mint() {
    let input = ungoverned_input(1000);
    let type_id = derived_type_id(&input.serialized, 0);
    let tx = Transition {
        inputs: vec![input],
        outputs: vec![governed_output(LOCK_HASH)],
        args: vec![],
    };
    assert_eq!(validate_type_id(&tx, &OWN_HASH, &type_id), Ok(()));
    assert_eq!(
        validate_type_id(&tx, &OWN_HASH, &[0x11u8; 32]),
        Err(Error::TypeIDNotMatch)
    );
}

#[test]
fn locate_finds_first_governed_output() {
    let tx = Transition {
        inputs: vec![],
        outputs: vec![
            ungoverned_output(LOCK_HASH),
            governed_output(LOCK_HASH),
            governed_output(OTHER_LOCK_HASH),
        ],
        args: vec![],
    };
    assert_eq!(locate_first_type_id_output_index(&tx, &OWN_HASH), Ok(1));

    let none = Transition {
        inputs: vec![],
        outputs: vec![ungoverned_output(LOCK_HASH)],
        args: vec![],
    };
    assert_eq!(
        locate_first_type_id_output_index(&none, &OWN_HASH),
        Err(Error::IndexOutOfBound)
    );
}

#[test]
fn args_loaders_split_the_two_halves() {
    let type_id = [3u8; 32];
    let args = args_of(&type_id, &LOCK_HASH);
    assert_eq!(load_type_id_from_script_args(&args, 0), Ok(type_id));
    assert_eq!(load_always_success_from_script_args(&args, 32), Ok(LOCK_HASH));
    assert_eq!(
        load_type_id_from_script_args(&vec![0u8; 31], 0),
        Err(Error::ArgsLengthNotEnough)
    );
    assert_eq!(
        load_always_success_from_script_args(&vec![0u8; 63], 32),
        Err(Error::ArgsLengthNotEnough)
    );
}

#[test]
fn error_codes_are_stable() {
    assert_eq!(Error::IndexOutOfBound.code(), 1);
    assert_eq!(Error::ItemMissing.code(), 2);
    assert_eq!(Error::LengthNotEnough.code(), 3);
    assert_eq!(Error::Encoding.code(), 4);
    assert_eq!(Error::WaitFailure.code(), 5);
    assert_eq!(Error::InvalidFd.code(), 6);
    assert_eq!(Error::OtherEndClosed.code(), 7);
    assert_eq!(Error::MaxVmsSpawned.code(), 8);
    assert_eq!(Error::MaxFdsCreated.code(), 9);
    assert_eq!(Error::InvalidTypeIDCellNum.code(), 20);
    assert_eq!(Error::TypeIDNotMatch.code(), 21);
    assert_eq!(Error::ArgsLengthNotEnough.code(), 22);
    assert_eq!(Error::InvalidTypeIDLock.code(), 23);
}
