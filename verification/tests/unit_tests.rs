use dmg_pipeline::attr::{finder_info_attr_name, finder_info_payload};
use dmg_pipeline::estimate::capacity_mb;
use dmg_pipeline::image::{mount_point_name, working_image_name, ImageSpec};
use dmg_pipeline::manifest::{build_file_list, volume_icon_dest, volume_root_dest};
use dmg_pipeline::parse::du_first_number;

#[test]
fn parses_leading_size_field() {
    assert_eq!(du_first_number(b"4096\t/some/path\n"), Some(4096));
}

#[test]
fn parses_size_after_unparseable_field() {
    assert_eq!(du_first_number(b"du: cannot access\t456\t."), Some(456));
}

#[test]
fn rejects_output_without_number() {
    assert_eq!(du_first_number(b"du: cannot access 'x': No such file\n"), None);
    assert_eq!(du_first_number(b""), None);
    assert_eq!(du_first_number(b"12a34\tpath"), None);
}

#[test]
fn parses_field_with_leading_plus_sign() {
    // A field may carry one optional leading plus sign; the first field
    // that parses wins.
    assert_eq!(du_first_number(b"+5\t7"), Some(5));
    assert_eq!(du_first_number(b"+5"), Some(5));
    assert_eq!(du_first_number(b"+0\tpath"), Some(0));
}

#[test]
fn rejects_malformed_signs() {
    // A bare sign, a doubled sign, or a minus sign is not a number; a later
    // well-formed field still wins.
    assert_eq!(du_first_number(b"+\t7"), Some(7));
    assert_eq!(du_first_number(b"++5\t7"), Some(7));
    assert_eq!(du_first_number(b"-5\t7"), Some(7));
    assert_eq!(du_first_number(b"+"), None);
    assert_eq!(du_first_number(b"5+\tx"), None);
}

#[test]
fn parses_largest_size() {
    assert_eq!(
        du_first_number(b"18446744073709551615\t."),
        Some(u64::MAX)
    );
}

#[test]
fn rejects_size_beyond_largest() {
    assert_eq!(du_first_number(b"18446744073709551616\t."), None);
}

#[test]
fn capacity_rounds_up() {
    // One full megabyte exactly, then one byte over.
    assert_eq!(capacity_mb(1048576), 1);
    assert_eq!(capacity_mb(1048577), 2);
    assert_eq!(capacity_mb(0), 0);
    assert_eq!(capacity_mb(1), 1);
    // The worked example: a 10,485,760-byte bundle plus the per-entry
    // overhead of 20 bytes.
    assert_eq!(capacity_mb(10485760 + 20), 11);
}

#[test]
fn capacity_monotone_in_total() {
    let mut prev = 0;
    for total in [0u64, 19, 20, 1048575, 1048576, 1048577, 10485780, u64::MAX] {
        let c = capacity_mb(total);
        assert!(c >= prev);
        prev = c;
    }
}

#[test]
fn finder_info_is_flag_at_fixed_offset() {
    let payload = finder_info_payload();
    assert_eq!(payload.len(), 32);
    for (i, b) in payload.iter().enumerate() {
        if i == 8 {
            assert_eq!(*b, 4);
        } else {
            assert_eq!(*b, 0);
        }
    }
    assert_eq!(finder_info_attr_name(), "com.apple.FinderInfo");
}

#[test]
fn manifest_without_icon_has_single_root_entry() {
    let list = build_file_list("MyApp.app", None);
    assert_eq!(list.len(), 1);
    assert_eq!(list[0].source, "MyApp.app");
    assert_eq!(list[0].dest, "/");
}

#[test]
fn manifest_with_icon_has_reserved_icon_entry() {
    let list = build_file_list("MyApp.app", Some("icon.icns"));
    assert_eq!(list.len(), 2);
    assert_eq!(list[0].source, "MyApp.app");
    assert_eq!(list[0].dest, volume_root_dest());
    assert_eq!(list[1].source, "icon.icns");
    assert_eq!(list[1].dest, volume_icon_dest());
    assert_eq!(list[1].dest, ".VolumeIcon.icns");
}

#[test]
fn working_and_mount_names_derive_from_bundle_name() {
    let working = working_image_name("MyApp.app");
    assert_eq!(working, "MyApp.app.dmg");
    assert_eq!(mount_point_name(&working), "MyApp.app.dmg_tmp");
}

#[test]
fn image_spec_carries_derived_names() {
    let spec = ImageSpec::derive(
        "/out/MyApp.dmg".to_string(),
        "MyApp".to_string(),
        11,
        "MyApp.app",
    );
    assert_eq!(spec.output_path, "/out/MyApp.dmg");
    assert_eq!(spec.volume_label, "MyApp");
    assert_eq!(spec.capacity_mb, 11);
    assert_eq!(spec.working_path, "MyApp.app.dmg");
    assert_eq!(spec.mount_point, "MyApp.app.dmg_tmp");
}
