use maulingmonkey_format_exe::pe::time_date::{
    days_in_month, days_in_year, is_leap_year, leap_days, CalendarTime, SECONDS_PER_DAY,
};
use maulingmonkey_format_exe::pe::{
    DataDirectories, DataDirectory, DllCharacteristics, FileCharacteristics, Machine,
    MajorMinorVersion, SectionCharacteristics, Subsystem, TimeDate, RVA,
};
use maulingmonkey_format_exe::reserved::Reserved;
use maulingmonkey_format_exe::FromMemory;

#[test]
fn leap_years() {
    assert_eq!(is_leap_year(1970), false);
    assert_eq!(is_leap_year(1971), false);
    assert_eq!(is_leap_year(1972), true);
    assert_eq!(is_leap_year(1973), false);
    assert_eq!(is_leap_year(1974), false);
    assert_eq!(is_leap_year(1975), false);
    assert_eq!(is_leap_year(1976), true);
    assert_eq!(is_leap_year(1977), false);
    assert_eq!(is_leap_year(2000), true);
    assert_eq!(is_leap_year(2100), false);
    assert_eq!(is_leap_year(2200), false);
    assert_eq!(is_leap_year(2300), false);
    assert_eq!(is_leap_year(2400), true);
}

#[test]
fn times() {
    assert_eq!("TimeDate::UNIX_EPOCH", TimeDate(0).to_string());
    assert_eq!("TimeDate(1970-01-01  0:00:01 UTC)", TimeDate(1).to_string());
    assert_eq!("TimeDate(1970-01-01 23:59:59 UTC)", TimeDate(SECONDS_PER_DAY - 1).to_string());
    assert_eq!("TimeDate(1970-01-02  0:00:00 UTC)", TimeDate(SECONDS_PER_DAY - 0).to_string());
    assert_eq!("TimeDate(2106-02-07  6:28:15 UTC)", TimeDate(!0).to_string());
}

#[test]
fn dates() {
    for (day, expected_debug_date_fmt) in [
        (1, "1970-01-02"),
        (30, "1970-01-31"),
        (31, "1970-02-01"),
        (364, "1970-12-31"),
        (365, "1971-01-01"),
        (58, "1970-02-28"),
        (59, "1970-03-01"),
        (423, "1971-02-28"),
        (424, "1971-03-01"),
        (788, "1972-02-28"),
        (789, "1972-02-29"),
        (790, "1972-03-01"),
        (1154, "1973-02-28"),
        (1155, "1973-03-01"),
        (10000, "1997-05-19"),
        (10956, "1999-12-31"),
        (10957, "2000-01-01"),
        (10957 + 58, "2000-02-28"),
        (10957 + 59, "2000-02-29"),
        (10957 + 60, "2000-03-01"),
        (47481, "2099-12-31"),
        (47482, "2100-01-01"),
        (47540, "2100-02-28"),
        (47541, "2100-03-01"),
        (48941, "2103-12-31"),
        (48942, "2104-01-01"),
        (49000, "2104-02-28"),
        (49001, "2104-02-29"),
        (49002, "2104-03-01"),
    ]
    .iter()
    .copied()
    {
        let fmt = TimeDate(day * 24 * 60 * 60).to_string();
        let fmt = fmt.strip_prefix("TimeDate(").unwrap();
        let fmt = fmt.strip_suffix("  0:00:00 UTC)").unwrap();
        assert!(
            expected_debug_date_fmt == fmt,
            "date format mismatch\nday:      {}\nexpected: {:?}\nactual:   {:?}\n",
            day,
            expected_debug_date_fmt,
            fmt,
        );
    }
}

#[test]
fn calendar_of_a_moment() {
    assert_eq!(
        TimeDate(0).calendar(),
        CalendarTime { year: 1970, month: 1, day: 1, hour: 0, minute: 0, second: 0 }
    );
    assert_eq!(
        TimeDate(951_782_400 + 3_723).calendar(),
        CalendarTime { year: 2000, month: 2, day: 29, hour: 1, minute: 2, second: 3 }
    );
    assert_eq!(
        TimeDate(u32::MAX).calendar(),
        CalendarTime { year: 2106, month: 2, day: 7, hour: 6, minute: 28, second: 15 }
    );
    assert_eq!(TimeDate(7).seconds(), 7);
    assert_eq!(TimeDate::unix_epoch(), TimeDate(0));
    assert_eq!(TimeDate::default(), TimeDate(0));
}

#[test]
fn lengths_of_years_and_months() {
    assert_eq!((leap_days(1972), leap_days(1973)), (1, 0));
    assert_eq!((days_in_year(2000), days_in_year(2100)), (366, 365));
    let lengths: Vec<u32> = (1..=12).map(|month| days_in_month(2024, month)).collect();
    assert_eq!(lengths, vec![31, 29, 31, 30, 31, 30, 31, 31, 30, 31, 30, 31]);
    assert_eq!(days_in_month(2023, 2), 28);
}

#[test]
fn rva_arithmetic() {
    assert_eq!(RVA::new(7).to_u32(), 7);
    assert_eq!(RVA::new(u32::MAX).to_u64(), 0xffff_ffff);
    assert_eq!(RVA::new(9).to_usize(), 9);
    assert_eq!(RVA::null(), RVA(0));
    assert_eq!(RVA::default(), RVA(0));
    assert!(RVA(0).is_null());
    assert!(!RVA(1).is_null());
    assert_eq!(RVA(0x1000) + 0x20, RVA(0x1020));
    assert_eq!(0x20 + RVA(0x1000), RVA(0x1020));
    assert_eq!(RVA(0x1000) - 0x20, RVA(0x0fe0));
    assert_eq!(RVA(0x1500) - RVA(0x1000), 0x500);
    let mut rva = RVA(0x10);
    rva += 0x10;
    assert_eq!(rva, RVA(0x20));
    rva -= 0x1f;
    assert_eq!(rva, RVA(1));
    assert_eq!(u32::from(RVA(5)), 5);
    assert_eq!(u64::from(RVA(5)), 5);
    assert_eq!(usize::from(RVA(5)), 5);
    assert_eq!(RVA::from(5), RVA(5));
    assert!(RVA(1) < RVA(2));
    assert_eq!(RVA::from_raw(&[0x78, 0x56, 0x34, 0x12], 0), RVA(0x1234_5678));
}

#[test]
fn machines_have_names() {
    assert_eq!(Machine::new(0x014c).name(), Some("Machine::I386"));
    assert_eq!(Machine::new(Machine::AMD64).name(), Some("Machine::AMD64"));
    assert_eq!(Machine(0).name(), Some("Machine::UNKNOWN"));
    assert_eq!(Machine(0xaa64).name(), Some("Machine::ARM64"));
    assert_eq!(Machine(0xc0ee).name(), Some("Machine::CEE"));
    assert_eq!(Machine(0x1234).name(), None);
    assert_eq!(Machine(0x8664).to_u16(), 0x8664);
    assert_eq!(Machine::from_raw(&[0x64, 0x86], 0), Machine(Machine::AMD64));
    assert_eq!(Machine::default(), Machine(Machine::UNKNOWN));
}

#[test]
fn subsystems_have_names() {
    assert_eq!(Subsystem::new(2).name(), Some("Subsystem::WINDOWS_GUI"));
    assert_eq!(Subsystem::new(Subsystem::WINDOWS_CUI).name(), Some("Subsystem::WINDOWS_CUI"));
    assert_eq!(Subsystem(17).name(), Some("Subsystem::XBOX_CODE_CATALOG"));
    assert_eq!(Subsystem(4).name(), None);
    assert_eq!(Subsystem(15).name(), None);
    assert_eq!(Subsystem::from_raw(&[0x0a, 0x00], 0), Subsystem(Subsystem::EFI_APPLICATION));
}

#[test]
fn flags() {
    let flags = FileCharacteristics::from_bits_truncate(0x2022);
    assert_eq!(flags.bits(), 0x2022);
    assert!(flags.contains(FileCharacteristics::DLL));
    assert!(flags.contains(FileCharacteristics::DLL | FileCharacteristics::EXECUTABLE_IMAGE));
    assert!(!flags.contains(FileCharacteristics::SYSTEM));
    assert!(!flags.contains(FileCharacteristics::DLL | FileCharacteristics::SYSTEM));
    assert!(flags.contains(FileCharacteristics::NONE));
    assert!(!flags.is_empty());
    assert!(FileCharacteristics::default().is_empty());
    assert_eq!(FileCharacteristics::from_bits_truncate(0xffff).bits(), 0xffff);
    let flags = DllCharacteristics::from_raw(&[0x40, 0x81], 0);
    assert_eq!(flags.bits, 0x8140);
    assert!(flags.contains(DllCharacteristics::DYNAMIC_BASE | DllCharacteristics::NX_COMPAT));
    assert!(!flags.contains(DllCharacteristics::GUARD_CF));
    let flags = SectionCharacteristics::from_raw(&[0x20, 0, 0, 0x60], 0);
    assert_eq!(flags.bits(), 0x6000_0020);
    assert!(flags.contains(SectionCharacteristics::MEM_EXECUTE | SectionCharacteristics::CNT_CODE));
    assert!(!flags.contains(SectionCharacteristics::MEM_WRITE));
    assert_eq!(SectionCharacteristics::from_bits_truncate(u32::MAX).bits(), u32::MAX);
}

#[test]
fn versions() {
    let version = MajorMinorVersion::<u8>::from_raw(&[10, 3], 0);
    assert_eq!((version.major, version.minor), (10, 3));
    let wide: MajorMinorVersion<u32> = version.into();
    assert_eq!((wide.major, wide.minor), (10, 3));
    let version = MajorMinorVersion::<u16>::from_raw(&[0xee, 0x06, 0x00, 0x01, 0x00], 1);
    assert_eq!((version.major, version.minor), (6, 1));
    assert_eq!(<MajorMinorVersion<u16> as FromMemory>::size(), 4);
}

#[test]
fn data_directories_by_name() {
    let mut raw = vec![0u8; 128];
    for index in 0..16u8 {
        raw[8 * index as usize] = index + 1;
        raw[8 * index as usize + 4] = 0x10 + index;
    }
    let directories = DataDirectories::from_raw(&raw, 0);
    let named = directories.iter_name_dd();
    let names: Vec<&str> = named.iter().map(|(name, _)| *name).collect();
    assert_eq!(
        names,
        vec![
            "export",
            "import",
            "resource",
            "exception",
            "security",
            "basereloc",
            "debug",
            "architecture",
            "globalptr",
            "tls",
            "load_config",
            "bound_imports",
            "iat",
            "delay_import",
            "com_descriptor",
        ]
    );
    for (index, (_, directory)) in named.iter().enumerate() {
        let expected =
            DataDirectory { virtual_address: RVA(index as u32 + 1), size: 0x10 + index as u32 };
        assert_eq!(*directory, expected);
        assert_eq!(directories.get(index), Some(expected));
    }
    assert_eq!(directories.import.virtual_address, RVA(2));
    assert_eq!(directories.iat.size, 0x1c);
    assert_eq!(directories.get(15), Some(DataDirectory { virtual_address: RVA(16), size: 0x1f }));
    assert_eq!(directories.get(16), None);
    assert_eq!(DataDirectories::default(), DataDirectories::empty());
    assert_eq!(DataDirectories::empty().get(3), Some(DataDirectory::empty()));
    assert!(DataDirectory::empty().is_empty());
    assert!(!directories.export.is_empty());
    assert!(DataDirectory::default().is_empty());
}

#[test]
fn reserved_bytes_are_kept() {
    let raw: Vec<u8> = (0u8..32).collect();
    assert_eq!(Reserved::<8>::from_raw(&raw, 2), Reserved([2, 3, 4, 5, 6, 7, 8, 9]));
    assert_eq!(Reserved::<20>::from_raw(&raw, 12).0[19], 31);
    assert_eq!(Reserved::<8>::default(), Reserved([0; 8]));
}
