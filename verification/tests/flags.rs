use rusqlite::OpenFlags as Native;
use sqlite_access::access::flags::{OpenFlags, OpenOption, OPEN_ALL, OPEN_DEFAULT};

const OPTIONS: [OpenOption; 9] = [
    OpenOption::ReadOnly,
    OpenOption::ReadWrite,
    OpenOption::Create,
    OpenOption::Uri,
    OpenOption::Memory,
    OpenOption::NoMutex,
    OpenOption::FullMutex,
    OpenOption::SharedCache,
    OpenOption::PrivateCache,
];

#[test]
fn default_flags_are_read_write_and_create() {
    let flags = OpenFlags::default();
    assert_eq!(flags.bits(), 0x6);
    assert_eq!(OPEN_DEFAULT, 0x6);
    for option in OPTIONS {
        let expected = matches!(option, OpenOption::ReadWrite | OpenOption::Create);
        assert_eq!(flags.contains(option), expected);
    }
}

#[test]
fn option_bits_are_the_engines() {
    assert_eq!(OpenOption::ReadOnly.bit(), 0x0000_0001);
    assert_eq!(OpenOption::ReadWrite.bit(), 0x0000_0002);
    assert_eq!(OpenOption::Create.bit(), 0x0000_0004);
    assert_eq!(OpenOption::Uri.bit(), 0x0000_0040);
    assert_eq!(OpenOption::Memory.bit(), 0x0000_0080);
    assert_eq!(OpenOption::NoMutex.bit(), 0x0000_8000);
    assert_eq!(OpenOption::FullMutex.bit(), 0x0001_0000);
    assert_eq!(OpenOption::SharedCache.bit(), 0x0002_0000);
    assert_eq!(OpenOption::PrivateCache.bit(), 0x0004_0000);
}

#[test]
fn option_bits_match_the_binding() {
    assert_eq!(OpenOption::ReadOnly.bit(), Native::SQLITE_OPEN_READ_ONLY.bits());
    assert_eq!(OpenOption::ReadWrite.bit(), Native::SQLITE_OPEN_READ_WRITE.bits());
    assert_eq!(OpenOption::Create.bit(), Native::SQLITE_OPEN_CREATE.bits());
    assert_eq!(OpenOption::Uri.bit(), Native::SQLITE_OPEN_URI.bits());
    assert_eq!(OpenOption::Memory.bit(), Native::SQLITE_OPEN_MEMORY.bits());
    assert_eq!(OpenOption::NoMutex.bit(), Native::SQLITE_OPEN_NO_MUTEX.bits());
    assert_eq!(OpenOption::FullMutex.bit(), Native::SQLITE_OPEN_FULL_MUTEX.bits());
    assert_eq!(OpenOption::SharedCache.bit(), Native::SQLITE_OPEN_SHARED_CACHE.bits());
    assert_eq!(OpenOption::PrivateCache.bit(), Native::SQLITE_OPEN_PRIVATE_CACHE.bits());
}

#[test]
fn all_bits_is_the_union_of_the_options() {
    let mut bits = 0;
    let mut flags = OpenFlags::empty();
    for option in OPTIONS {
        bits |= option.bit();
        flags = flags.with(option);
    }
    assert_eq!(bits, OPEN_ALL);
    assert_eq!(flags.bits(), OPEN_ALL);
}

#[test]
fn empty_flags_hold_nothing() {
    let flags = OpenFlags::empty();
    assert_eq!(flags.bits(), 0);
    for option in OPTIONS {
        assert!(!flags.contains(option));
    }
}

#[test]
fn with_sets_one_option_and_keeps_the_rest() {
    let flags = OpenFlags::empty().with(OpenOption::ReadOnly).with(OpenOption::Uri);
    assert_eq!(flags.bits(), 0x41);
    assert!(flags.contains(OpenOption::ReadOnly));
    assert!(flags.contains(OpenOption::Uri));
    assert!(!flags.contains(OpenOption::ReadWrite));
    assert!(!flags.contains(OpenOption::Create));
    assert_eq!(flags.with(OpenOption::Uri), flags);
}

#[test]
fn from_bits_takes_every_pattern_of_options() {
    assert_eq!(OpenFlags::from_bits(0).map(|f| f.bits()), Some(0));
    assert_eq!(OpenFlags::from_bits(0x6), Some(OpenFlags::default()));
    assert_eq!(OpenFlags::from_bits(OPEN_ALL).map(|f| f.bits()), Some(OPEN_ALL));
    let flags = OpenFlags::from_bits(0x0001_0001).unwrap();
    assert!(flags.contains(OpenOption::ReadOnly));
    assert!(flags.contains(OpenOption::FullMutex));
    assert!(!flags.contains(OpenOption::NoMutex));
}

#[test]
fn from_bits_refuses_a_stray_bit() {
    assert_eq!(OpenFlags::from_bits(0x8), None);
    assert_eq!(OpenFlags::from_bits(0x6 | 0x100), None);
    assert_eq!(OpenFlags::from_bits(0x0100_0000), None);
    assert_eq!(OpenFlags::from_bits(-1), None);
    assert_eq!(OpenFlags::from_bits(i32::MIN), None);
}
