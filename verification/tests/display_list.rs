use lunitool::disk_info::{
    create_dummy_system_disk_info, LvmPhysicalVolumeData, MappedContent, Partition,
    PartitionContent, PhysicalDisk, SystemDiskInfo,
};
use lunitool::display::{build_disk_display_list, format_size};
use lunitool::widgets::DisplayItemType;

fn luks_snapshot() -> SystemDiskInfo {
    SystemDiskInfo {
        disks: vec![PhysicalDisk {
            path: "/dev/sda".to_string(),
            model: Some("TestDisk".to_string()),
            vendor: None,
            size_bytes: 1024 * 1024 * 1024,
            rota: false,
            partitions: vec![Partition {
                path: "/dev/sda1".to_string(),
                part_type_guid: None,
                part_label: None,
                part_uuid: None,
                part_flags: None,
                fs_type: Some("crypto_LUKS".to_string()),
                fs_uuid: None,
                fs_label: None,
                size_bytes: 1024 * 1024 * 1024 - 1024,
                mount_point: None,
                content: Some(PartitionContent::LuksContainer {
                    uuid: "luks-u1".to_string(),
                    mapped_name: Some("cr_test".to_string()),
                    mapped_content: Some(Box::new(MappedContent::LvmPhysicalVolume(
                        LvmPhysicalVolumeData {
                            path: "/dev/mapper/cr_test".to_string(),
                            pv_uuid: "pv-u1".to_string(),
                            vg_name: Some("vg_test".to_string()),
                            size_bytes: 1024 * 1024 * 512,
                            free_bytes: 0,
                        },
                    ))),
                }),
            }],
        }],
        lvm_volume_groups: vec![],
    }
}

#[test]
fn luks_lvm_partition_flattens_to_four_hierarchical_rows() {
    let rows = build_disk_display_list(&luks_snapshot());
    assert_eq!(rows.len(), 4);

    assert_eq!(rows[0].item_type, DisplayItemType::Disk);
    assert!(!rows[0].selectable);
    assert_eq!(rows[0].id_path, "/dev/sda");

    assert_eq!(rows[1].item_type, DisplayItemType::Partition);
    assert!(rows[1].selectable);
    assert_eq!(rows[1].id_path, "/dev/sda1");

    assert_eq!(rows[2].item_type, DisplayItemType::LuksContainer);
    assert!(!rows[2].selectable, "a mapped LUKS container is not selectable");
    assert_eq!(rows[2].id_path, "/dev/sda1/luks/luks-u1");

    assert_eq!(rows[3].item_type, DisplayItemType::LvmPhysicalVolume);
    assert!(!rows[3].selectable);
    assert_eq!(rows[3].id_path, "/dev/sda1/luks/luks-u1/lvm_pv/pv-u1");

    for i in 0..rows.len() {
        for j in 0..rows.len() {
            if i != j {
                assert_ne!(rows[i].id_path, rows[j].id_path);
            }
        }
    }
    assert!(rows[2].id_path.starts_with(&rows[1].id_path));
    assert!(rows[3].id_path.starts_with(&rows[2].id_path));
}

#[test]
fn rebuild_from_same_snapshot_preserves_selected_id_path() {
    let snapshot = create_dummy_system_disk_info();
    let first = build_disk_display_list(&snapshot);
    let (idx, selected_path) = first
        .iter()
        .enumerate()
        .find(|(_, r)| r.selectable)
        .map(|(i, r)| (i, r.id_path.clone()))
        .expect("at least one selectable row");

    let rebuilt = build_disk_display_list(&snapshot);
    let found = rebuilt
        .iter()
        .position(|r| r.id_path == selected_path)
        .expect("previously selected id_path still present");
    assert_eq!(found, idx);
    assert!(rebuilt[found].selectable);
}

#[test]
fn unmapped_luks_container_is_selectable() {
    let mut snapshot = luks_snapshot();
    if let Some(PartitionContent::LuksContainer {
        mapped_name,
        mapped_content,
        ..
    }) = &mut snapshot.disks[0].partitions[0].content
    {
        *mapped_name = None;
        *mapped_content = None;
    }
    let rows = build_disk_display_list(&snapshot);
    assert_eq!(rows.len(), 3);
    assert!(rows[2].selectable, "an unmapped LUKS container is selectable");
    assert!(rows[2].display_text.contains("Not active"));
}

#[test]
fn dummy_snapshot_has_lvm_section_after_disks() {
    let rows = build_disk_display_list(&create_dummy_system_disk_info());
    let header = rows
        .iter()
        .position(|r| r.id_path == "lvm_section_header")
        .expect("LVM section label present");
    assert_eq!(rows[header].item_type, DisplayItemType::Label);
    assert!(!rows[header].selectable);
    assert!(rows[header + 1].id_path.starts_with("lvm_vg/"));
    assert_eq!(rows[header + 1].item_type, DisplayItemType::LvmVolumeGroup);
    let root_lv = rows
        .iter()
        .find(|r| r.id_path == "/dev/vg_system/lv_root")
        .expect("root logical volume row");
    assert!(root_lv.selectable);
    assert!(root_lv.display_text.contains("(Current System Root)"));
}

#[test]
fn empty_snapshot_yields_no_rows() {
    let rows = build_disk_display_list(&SystemDiskInfo {
        disks: vec![],
        lvm_volume_groups: vec![],
    });
    assert!(rows.is_empty());
}

#[test]
fn format_size_exact_values() {
    assert_eq!(format_size(0), "0 B");
    assert_eq!(format_size(512), "512 B");
    assert_eq!(format_size(1023), "1023 B");
    assert_eq!(format_size(1024), "1.00 KB");
    assert_eq!(format_size(1536), "1.50 KB");
    assert_eq!(format_size(512 * 1024 * 1024), "512.00 MB");
    assert_eq!(format_size(250 * 1024 * 1024 * 1024), "250.00 GB");
    assert_eq!(format_size(1024 * 1024 * 1024 * 1024), "1.00 TB");
}

#[test]
fn dummy_snapshot_layout() {
    let info = create_dummy_system_disk_info();
    assert_eq!(info.disks.len(), 3);
    assert_eq!(info.disks[0].path, "/dev/sda");
    assert_eq!(info.disks[1].path, "/dev/sdb");
    assert_eq!(info.disks[2].path, "/dev/nvme0n1");
    assert_eq!(info.lvm_volume_groups.len(), 2);
    assert_eq!(info.lvm_volume_groups[0].name, "vg_system");
    assert_eq!(info.lvm_volume_groups[1].logical_volumes[0].name, "lv_games");
}
