use archflow::types::{DateTimeCS, FileCompatibilitySystem, FileDateTime};

#[test]
fn test_time_display_zero_msdos() {
    let time: FileDateTime = FileDateTime::Zero;

    let (date, time) = time.ms_dos();

    println!("Time zero {} {}", date, time);
    assert_eq!((date, time), (33, 0));
}

#[test]
fn test_time_display_0_0() {
    let date_time = DateTimeCS::from_msdos(0, 0);

    println!("Time zero {}", date_time.to_string());
    assert_eq!(date_time.to_string(), "1980-01-01 00:00:00");
    assert_eq!(date_time.year, 1980);
    assert_eq!(date_time.month, 0);
    assert_eq!(date_time.day, 0);
    assert_eq!(date_time.to_time(), (1980, 1, 1, 0, 0, 0));
}

#[test]
fn test_file_compatibility_system() {
    assert_eq!(FileCompatibilitySystem::Dos.value(), 0);
    assert_eq!(FileCompatibilitySystem::Unix.value(), 3);
    assert_eq!(FileCompatibilitySystem::WindowsNTFS.value(), 10);
    assert_eq!(FileCompatibilitySystem::OsX.value(), 19);
    assert_eq!(FileCompatibilitySystem::Unknown(34).value(), 34);

    assert_eq!(FileCompatibilitySystem::from_u8(0), FileCompatibilitySystem::Dos);
    assert_eq!(FileCompatibilitySystem::from_u8(3), FileCompatibilitySystem::Unix);
    assert_eq!(
        FileCompatibilitySystem::from_u8(10),
        FileCompatibilitySystem::WindowsNTFS
    );
    assert_eq!(FileCompatibilitySystem::from_u8(19), FileCompatibilitySystem::OsX);
    assert_eq!(
        FileCompatibilitySystem::from_u8(55),
        FileCompatibilitySystem::Unknown(55)
    );
}

#[test]
fn msdos_fields_roundtrip() {
    let dt = DateTimeCS::from_msdos(0x5a21, 0x8c2e);
    assert_eq!(dt.year, 2025);
    assert_eq!(dt.month, 1);
    assert_eq!(dt.day, 1);
    assert_eq!(dt.hour, 17);
    assert_eq!(dt.minute, 33);
    assert_eq!(dt.second, 28);
    assert_eq!(dt.ms_dos(), (0x5a21, 0x8c2e));
}

#[test]
fn timestamp_conversions() {
    let dt = DateTimeCS::from_timestamp(0);
    assert_eq!((dt.year, dt.month, dt.day, dt.hour, dt.minute, dt.second), (1970, 1, 1, 0, 0, 0));
    let dt = DateTimeCS::from_timestamp(1582248020);
    assert_eq!(dt.to_timestamp(), 1582248020);
    assert_eq!(FileDateTime::UnixCustom(77).timestamp(), 77);
    assert!(FileDateTime::UnixCustom(77).extended_timestamp());
    assert!(!FileDateTime::Zero.extended_timestamp());
    assert_eq!(FileDateTime::Zero.timestamp(), 315532800);
}

#[test]
fn version_needed_carries_system() {
    assert_eq!(FileCompatibilitySystem::Unix.update_version_needed(20), 0x0314);
    assert_eq!(FileCompatibilitySystem::Dos.update_version_needed(0x0314), 0x0014);
}

#[test]
fn test_time_display() {
    let time: FileDateTime = FileDateTime::Zero;
    let ctime = time.to_time();

    println!("Time zero {:?}", ctime);
    assert_eq!(ctime, (1980, 1, 1, 0, 0, 0));
}

#[test]
fn test_time_display_time() {
    let time: FileDateTime = FileDateTime::Now;

    println!("Time zero {:?}", time.to_time());

    println!("{:?}", chrono::offset::Local::now());
    println!("{:?}", chrono::offset::Utc::now());
    let ts = chrono::offset::Utc::now().timestamp() as i32;
    println!("{:?}", ts);
    assert!(FileDateTime::UnixNow.timestamp() >= ts);
}
