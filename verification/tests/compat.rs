use scx_compat::CompatError;
use scx_compat::database::TypeDatabase;
use scx_compat::protocol::CompatibilityProtocol;
use scx_compat::protocol::ConfigField;
use scx_compat::protocol::FieldRule;
use scx_compat::protocol::ProtocolState;
use scx_compat::record::KIND_ENUM32;
use scx_compat::record::KIND_ENUM64;
use scx_compat::record::KIND_STRUCT;
use scx_compat::record::TypeRecord;
use scx_compat::resolve::read_enum;
use scx_compat::resolve::read_enum_or;
use scx_compat::resolve::struct_has_field;

/// Builds a name table in the kernel's layout — a NUL at offset zero, then
/// each name NUL-terminated — and returns the table with each name's offset.
fn mk_table(names: &[&[u8]]) -> (Vec<u8>, Vec<u32>) {
    let mut table = vec![0u8];
    let mut offsets = Vec::new();
    for name in names {
        offsets.push(table.len() as u32);
        table.extend_from_slice(name);
        table.push(0);
    }
    (table, offsets)
}

fn pack_info(kind: u32, vlen: u32) -> u32 {
    (kind << 24) | vlen
}

/// A fixture database shaped like the running kernel's: the `pid_type`
/// enumeration with `PIDTYPE_TGID == 1`, a 64-bit enumeration, and a
/// `task_struct` structure with a `flags` member.
fn fixture() -> TypeDatabase {
    let (table, offs) = mk_table(&[
        b"pid_type",
        b"PIDTYPE_PID",
        b"PIDTYPE_TGID",
        b"PIDTYPE_PGID",
        b"task_struct",
        b"flags",
        b"comm",
        b"big_flags",
        b"BIG_NEGATIVE",
        b"BIG_SPLIT",
    ]);
    let records = vec![
        TypeRecord {
            name_off: offs[0],
            info: pack_info(KIND_ENUM32, 3),
            tail: vec![offs[1], 0, offs[2], 1, offs[3], 2],
        },
        TypeRecord {
            name_off: offs[4],
            info: pack_info(KIND_STRUCT, 2),
            tail: vec![offs[5], 0, 0, offs[6], 0, 64],
        },
        TypeRecord {
            name_off: offs[7],
            info: pack_info(KIND_ENUM64, 2),
            tail: vec![offs[8], 0xffff_ffff, 0xffff_ffff, offs[9], 0x5678, 0x1234],
        },
    ];
    TypeDatabase::new(records, table).expect("fixture records are well formed")
}

#[test]
fn test_read_enum() {
    assert_eq!(read_enum(&fixture(), b"pid_type", b"PIDTYPE_TGID").unwrap(), 1);
}

#[test]
fn test_struct_has_field() {
    assert!(struct_has_field(&fixture(), b"task_struct", b"flags").unwrap());
    assert!(!struct_has_field(&fixture(), b"task_struct", b"NO_SUCH_FIELD").unwrap());
    assert!(struct_has_field(&fixture(), b"NO_SUCH_STRUCT", b"NO_SUCH_FIELD").is_err());
}

#[test]
fn test_read_enum_first_match_in_declaration_order() {
    let db = fixture();
    assert_eq!(read_enum(&db, b"pid_type", b"PIDTYPE_PID").unwrap(), 0);
    assert_eq!(read_enum(&db, b"pid_type", b"PIDTYPE_PGID").unwrap(), 2);
}

#[test]
fn test_read_enum_unknown_type_not_found() {
    assert_eq!(
        read_enum(&fixture(), b"no_such_type", b"PIDTYPE_TGID"),
        Err(CompatError::NotFound)
    );
}

#[test]
fn test_read_enum_unknown_member_not_found() {
    assert_eq!(
        read_enum(&fixture(), b"pid_type", b"PIDTYPE_MAX"),
        Err(CompatError::NotFound)
    );
}

#[test]
fn test_read_enum_on_non_enumeration_not_found() {
    assert_eq!(
        read_enum(&fixture(), b"task_struct", b"flags"),
        Err(CompatError::NotFound)
    );
}

#[test]
fn test_enum32_value_sign_extends() {
    let (table, offs) = mk_table(&[b"errors", b"MINUS_ONE"]);
    let records = vec![TypeRecord {
        name_off: offs[0],
        info: pack_info(KIND_ENUM32, 1),
        tail: vec![offs[1], 0xffff_ffff],
    }];
    let db = TypeDatabase::new(records, table).unwrap();
    assert_eq!(read_enum(&db, b"errors", b"MINUS_ONE").unwrap(), u64::MAX);
}

#[test]
fn test_enum64_value_reassembled_from_halves() {
    let db = fixture();
    assert_eq!(
        read_enum(&db, b"big_flags", b"BIG_SPLIT").unwrap(),
        (0x1234u64 << 32) | 0x5678u64
    );
    assert_eq!(
        read_enum(&db, b"big_flags", b"BIG_NEGATIVE").unwrap(),
        u64::MAX
    );
}

#[test]
fn test_struct_lookup_skips_same_named_enumeration() {
    // An enumeration and a structure carry the same name; the probe must
    // find the structure even though the enumeration comes first.
    let (table, offs) = mk_table(&[b"shared", b"A_VALUE", b"a_field"]);
    let records = vec![
        TypeRecord {
            name_off: offs[0],
            info: pack_info(KIND_ENUM32, 1),
            tail: vec![offs[1], 7],
        },
        TypeRecord {
            name_off: offs[0],
            info: pack_info(KIND_STRUCT, 1),
            tail: vec![offs[2], 0, 0],
        },
    ];
    let db = TypeDatabase::new(records, table).unwrap();
    assert!(struct_has_field(&db, b"shared", b"a_field").unwrap());
    assert_eq!(read_enum(&db, b"shared", b"A_VALUE").unwrap(), 7);
}

#[test]
fn test_malformed_enumerator_name_is_fatal() {
    let (table, offs) = mk_table(&[b"bad_enum"]);
    let bad_off = table.len() as u32;
    let records = vec![TypeRecord {
        name_off: offs[0],
        info: pack_info(KIND_ENUM32, 1),
        tail: vec![bad_off, 5],
    }];
    let db = TypeDatabase::new(records, table).unwrap();
    assert_eq!(
        read_enum(&db, b"bad_enum", b"ANYTHING"),
        Err(CompatError::MalformedName)
    );
}

#[test]
fn test_malformed_member_name_is_fatal() {
    let (table, offs) = mk_table(&[b"bad_struct"]);
    let bad_off = table.len() as u32;
    let records = vec![TypeRecord {
        name_off: offs[0],
        info: pack_info(KIND_STRUCT, 1),
        tail: vec![bad_off, 0, 0],
    }];
    let db = TypeDatabase::new(records, table).unwrap();
    assert_eq!(
        struct_has_field(&db, b"bad_struct", b"anything"),
        Err(CompatError::MalformedName)
    );
}

#[test]
fn test_database_rejects_short_trailing_array() {
    let (table, offs) = mk_table(&[b"broken", b"ONLY_NAME"]);
    let records = vec![TypeRecord {
        name_off: offs[0],
        info: pack_info(KIND_ENUM32, 2),
        tail: vec![offs[1], 1],
    }];
    assert!(TypeDatabase::new(records, table).is_none());
}

#[test]
fn test_repeated_queries_observe_one_initialization() {
    // Same query, same answer, across repeated use of one database and
    // across a second database built from the same source data.
    let db = fixture();
    let first = read_enum(&db, b"pid_type", b"PIDTYPE_TGID");
    for _ in 0..3 {
        assert_eq!(read_enum(&db, b"pid_type", b"PIDTYPE_TGID"), first);
    }
    let again = fixture();
    assert_eq!(read_enum(&again, b"pid_type", b"PIDTYPE_TGID"), first);
    assert_eq!(
        struct_has_field(&again, b"task_struct", b"flags"),
        struct_has_field(&db, b"task_struct", b"flags")
    );
}

#[test]
fn test_read_enum_or_falls_back_on_missing() {
    let db = fixture();
    assert_eq!(read_enum_or(&db, b"scx_ops_flags", b"SCX_OPS_SWITCH_PARTIAL", 0), 0);
    assert_eq!(read_enum_or(&db, b"pid_type", b"PIDTYPE_TGID", 99), 1);
}

/// A database whose `sched_ext_ops` structure has, or lacks, the optional
/// `exit_dump_len` field.
fn ops_db(with_exit_dump_len: bool) -> TypeDatabase {
    let (table, offs) = mk_table(&[b"sched_ext_ops", b"flags", b"exit_dump_len"]);
    let records = if with_exit_dump_len {
        vec![TypeRecord {
            name_off: offs[0],
            info: pack_info(KIND_STRUCT, 2),
            tail: vec![offs[1], 0, 0, offs[2], 0, 64],
        }]
    } else {
        vec![TypeRecord {
            name_off: offs[0],
            info: pack_info(KIND_STRUCT, 1),
            tail: vec![offs[1], 0, 0],
        }]
    };
    TypeDatabase::new(records, table).unwrap()
}

fn ops_config(value: u64) -> Vec<ConfigField> {
    vec![ConfigField { name: b"exit_dump_len".to_vec(), value }]
}

fn ops_rules() -> Vec<FieldRule> {
    vec![FieldRule { field: b"exit_dump_len".to_vec(), safe_default: 0 }]
}

#[test]
fn test_load_clears_missing_optional_field_and_warns() {
    let db = ops_db(false);
    let mut proto = CompatibilityProtocol::new();
    let (adapted, notices) = proto
        .prepare_load(&db, b"sched_ext_ops", ops_config(42), &ops_rules())
        .expect("a missing optional field must not fail the load");
    assert_eq!(adapted.len(), 1);
    assert_eq!(adapted[0].name, b"exit_dump_len".to_vec());
    assert_eq!(adapted[0].value, 0);
    assert_eq!(notices.len(), 1);
    assert_eq!(notices[0].field, b"exit_dump_len".to_vec());
    assert_eq!(notices[0].requested, 42);
    assert!(proto.complete_load(true).is_ok());
    assert_eq!(proto.state(), ProtocolState::Loaded);
}

#[test]
fn test_load_passes_present_optional_field_through() {
    let db = ops_db(true);
    let proto = CompatibilityProtocol::new();
    let (adapted, notices) = proto
        .prepare_load(&db, b"sched_ext_ops", ops_config(42), &ops_rules())
        .unwrap();
    assert_eq!(adapted[0].value, 42);
    assert!(notices.is_empty());
}

#[test]
fn test_load_keeps_default_value_silently() {
    // A default-valued request for a missing field is no downgrade and no
    // notice.
    let db = ops_db(false);
    let proto = CompatibilityProtocol::new();
    let (adapted, notices) = proto
        .prepare_load(&db, b"sched_ext_ops", ops_config(0), &ops_rules())
        .unwrap();
    assert_eq!(adapted[0].value, 0);
    assert!(notices.is_empty());
}

#[test]
fn test_load_fails_when_target_struct_missing() {
    let db = fixture();
    let proto = CompatibilityProtocol::new();
    let r = proto.prepare_load(&db, b"sched_ext_ops", ops_config(42), &ops_rules());
    assert!(matches!(r, Err(CompatError::NotFound)));
}

#[test]
fn test_full_cycle_runs_exactly_once() {
    let mut proto = CompatibilityProtocol::new();
    assert_eq!(proto.state(), ProtocolState::Unloaded);
    assert!(proto.complete_load(true).is_ok());
    assert_eq!(proto.state(), ProtocolState::Loaded);
    assert!(proto.complete_attach(true).is_ok());
    assert_eq!(proto.state(), ProtocolState::Attached);
    assert!(proto.detach());
    assert_eq!(proto.state(), ProtocolState::Unloaded);
    assert!(!proto.detach());
    assert_eq!(proto.state(), ProtocolState::Unloaded);
}

#[test]
fn test_cannot_skip_loaded_to_reach_attached() {
    let mut proto = CompatibilityProtocol::new();
    assert_eq!(proto.complete_attach(true), Err(CompatError::AttachError));
    assert_eq!(proto.state(), ProtocolState::Unloaded);
}

#[test]
fn test_no_reload_while_attached() {
    let mut proto = CompatibilityProtocol::new();
    proto.complete_load(true).unwrap();
    proto.complete_attach(true).unwrap();
    assert_eq!(proto.complete_load(true), Err(CompatError::LoadError));
    assert_eq!(proto.complete_attach(true), Err(CompatError::AttachError));
    assert_eq!(proto.state(), ProtocolState::Attached);
}

#[test]
fn test_failed_load_stays_unloaded() {
    let mut proto = CompatibilityProtocol::new();
    assert_eq!(proto.complete_load(false), Err(CompatError::LoadError));
    assert_eq!(proto.state(), ProtocolState::Unloaded);
}

#[test]
fn test_failed_attach_stays_loaded() {
    let mut proto = CompatibilityProtocol::new();
    proto.complete_load(true).unwrap();
    assert_eq!(proto.complete_attach(false), Err(CompatError::AttachError));
    assert_eq!(proto.state(), ProtocolState::Loaded);
}

#[test]
fn test_prepare_load_rejected_after_load() {
    let db = ops_db(true);
    let mut proto = CompatibilityProtocol::new();
    proto.complete_load(true).unwrap();
    let r = proto.prepare_load(&db, b"sched_ext_ops", ops_config(42), &ops_rules());
    assert!(matches!(r, Err(CompatError::LoadError)));
}

#[test]
fn test_anonymous_record_matches_empty_name() {
    // Offset zero of the name table is the empty name, as in the kernel's
    // layout; a record pointing there answers to the empty lookup.
    let (table, offs) = mk_table(&[b"ANON_VALUE"]);
    let records = vec![TypeRecord {
        name_off: 0,
        info: pack_info(KIND_ENUM32, 1),
        tail: vec![offs[0], 11],
    }];
    let db = TypeDatabase::new(records, table).unwrap();
    assert_eq!(read_enum(&db, b"", b"ANON_VALUE").unwrap(), 11);
}
