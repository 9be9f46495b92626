//! Display-list builder: the pure, deterministic depth-first flattening
//! of a disk snapshot into render-ready rows, and the human-readable size
//! formatting used in the row texts. The row sequence, texts, identifiers
//! and selectability are all pinned down by the model functions here.
use vstd::prelude::*;
use vstd::string::StringExecFns;

use crate::disk_info::{
    LvmLogicalVolume, LvmLogicalVolumeModel, LvmVolumeGroup, LvmVolumeGroupModel, MappedContent,
    MappedContentModel, Partition, PartitionContent, PartitionContentModel, PartitionModel,
    PhysicalDisk, PhysicalDiskModel, SystemDiskInfo, SystemDiskInfoModel,
};
use crate::strutil::{append_decimal, decimal_digits, join_strings, spec_join, str_eq};
use crate::widgets::{DisplayItemType, DisplayListItem, DisplayListItemModel};

verus! {

pub const KB: u64 = 1024;

pub const MB: u64 = KB * 1024;

pub const GB: u64 = MB * 1024;

pub const TB: u64 = GB * 1024;

/// `bytes / unit` in hundredths, rounded to the nearest hundredth with
/// ties rounding up.
pub open spec fn spec_scaled_hundredths(bytes: u64, unit: u64) -> int
    recommends
        unit >= 2,
{
    (bytes as int / unit as int) * 100 + ((bytes as int % unit as int) * 100 + unit as int / 2)
        / unit as int
}

/// The scaled size with two fraction digits, e.g. `231.92`.
pub open spec fn spec_fixed2(bytes: u64, unit: u64) -> Seq<char>
    recommends
        unit >= 2,
{
    let h = spec_scaled_hundredths(bytes, unit);
    decimal_digits((h / 100) as nat) + "."@ + decimal_digits((h % 100 / 10) as nat)
        + decimal_digits((h % 100 % 10) as nat)
}

/// The human-readable size text: the largest binary unit not above the
/// value, with two fraction digits, or plain bytes below one kibibyte.
pub open spec fn spec_format_size(bytes: u64) -> Seq<char> {
    if bytes >= TB {
        spec_fixed2(bytes, TB) + " TB"@
    } else if bytes >= GB {
        spec_fixed2(bytes, GB) + " GB"@
    } else if bytes >= MB {
        spec_fixed2(bytes, MB) + " MB"@
    } else if bytes >= KB {
        spec_fixed2(bytes, KB) + " KB"@
    } else {
        decimal_digits(bytes as nat) + " B"@
    }
}

fn append_fixed2(s: &mut String, bytes: u64, unit: u64)
    requires
        unit == KB || unit == MB || unit == GB || unit == TB,
    ensures
        final(s)@ == old(s)@ + spec_fixed2(bytes, unit),
{
    let q: u64 = bytes / unit;
    let r: u64 = bytes % unit;
    let fr: u64 = (r * 100 + unit / 2) / unit;
    let h: u64 = q * 100 + fr;
    proof {
        assert(h == spec_scaled_hundredths(bytes, unit));
    }
    append_decimal(s, h / 100);
    s.append(".");
    append_decimal(s, h % 100 / 10);
    append_decimal(s, h % 100 % 10);
}

/// Formats a byte count as human-readable text.
pub fn format_size(bytes: u64) -> (r: String)
    ensures
        r@ == spec_format_size(bytes),
{
    let mut s = String::new();
    proof {
        assert(Seq::<char>::empty() + spec_format_size(bytes) =~= spec_format_size(bytes));
    }
    if bytes >= TB {
        append_fixed2(&mut s, bytes, TB);
        s.append(" TB");
    } else if bytes >= GB {
        append_fixed2(&mut s, bytes, GB);
        s.append(" GB");
    } else if bytes >= MB {
        append_fixed2(&mut s, bytes, MB);
        s.append(" MB");
    } else if bytes >= KB {
        append_fixed2(&mut s, bytes, KB);
        s.append(" KB");
    } else {
        append_decimal(&mut s, bytes);
        s.append(" B");
    }
    s
}

/// The header row of one physical disk (structural, never selectable).
pub open spec fn spec_disk_row(d: PhysicalDiskModel) -> DisplayListItemModel {
    DisplayListItemModel {
        id_path: d.path,
        display_text: "💾 "@ + d.path + " ("@ + (if d.model is Some {
            d.model->0
        } else {
            "N/A"@
        }) + ", "@ + spec_format_size(d.size_bytes) + ")"@,
        indent_level: 0,
        item_type: DisplayItemType::Disk,
        selectable: false,
        size_bytes: Some(d.size_bytes),
    }
}

/// The info tags shown on a partition row: filesystem type, label
/// (filesystem label first, else partition label), and mount point.
pub open spec fn spec_partition_tags(p: PartitionModel) -> Seq<Seq<char>> {
    let with_fs = if p.fs_type is Some {
        seq![p.fs_type->0]
    } else {
        Seq::<Seq<char>>::empty()
    };
    let label = if p.fs_label is Some {
        p.fs_label
    } else {
        p.part_label
    };
    let with_label = if label is Some {
        with_fs.push("'"@ + label->0 + "'"@)
    } else {
        with_fs
    };
    if p.mount_point is Some {
        with_label.push("at '"@ + p.mount_point->0 + "'"@)
    } else {
        with_label
    }
}

/// The row of one partition (always selectable).
pub open spec fn spec_partition_row(p: PartitionModel) -> DisplayListItemModel {
    DisplayListItemModel {
        id_path: p.path,
        display_text: "  └─ 📄 "@ + p.path + " ("@ + spec_format_size(p.size_bytes) + ", "@
            + spec_join(spec_partition_tags(p), ", "@) + ")"@,
        indent_level: 1,
        item_type: DisplayItemType::Partition,
        selectable: true,
        size_bytes: Some(p.size_bytes),
    }
}

/// The row of a LUKS container found inside a partition; selectable only
/// while it is not mapped open.
pub open spec fn spec_luks_row(p: PartitionModel, uuid: Seq<char>, mapped_name: Option<Seq<char>>) -> DisplayListItemModel {
    DisplayListItemModel {
        id_path: p.path + "/luks/"@ + uuid,
        display_text: if mapped_name is Some {
            "    └─ 🔒 LUKS Container ("@ + uuid + ")"@ + "  "@ + mapped_name->0
        } else {
            "    └─ 🔒 LUKS Container ("@ + uuid + ")"@ + " - Not active"@
        },
        indent_level: 2,
        item_type: DisplayItemType::LuksContainer,
        selectable: mapped_name is None,
        size_bytes: Some(p.size_bytes),
    }
}

/// The detail tags of a filesystem found inside an open LUKS container.
pub open spec fn spec_fs_details(
    fs_type: Option<Seq<char>>,
    fs_label: Option<Seq<char>>,
    mount_point: Option<Seq<char>>,
) -> Seq<Seq<char>> {
    let with_fs = seq![
        if fs_type is Some {
            fs_type->0
        } else {
            "FS"@
        },
    ];
    let with_label = if fs_label is Some {
        with_fs.push("'"@ + fs_label->0 + "'"@)
    } else {
        with_fs
    };
    if mount_point is Some {
        with_label.push("at '"@ + mount_point->0 + "'"@)
    } else {
        with_label
    }
}

/// The rows under an open LUKS container: the LVM physical volume or the
/// filesystem living inside the mapping, nothing for unknown content.
pub open spec fn spec_luks_child_rows(
    p: PartitionModel,
    luks_id: Seq<char>,
    mn: Seq<char>,
    mc: MappedContentModel,
) -> Seq<DisplayListItemModel> {
    match mc {
        MappedContentModel::LvmPhysicalVolume(pv) => seq![
            DisplayListItemModel {
                id_path: luks_id + "/lvm_pv/"@ + pv.pv_uuid,
                display_text: "      └─ 📦 LVM PV on "@ + mn + " (for VG: "@ + (
                if pv.vg_name is Some {
                    pv.vg_name->0
                } else {
                    "Unknown"@
                }) + ")"@,
                indent_level: 3,
                item_type: DisplayItemType::LvmPhysicalVolume,
                selectable: false,
                size_bytes: Some(pv.size_bytes),
            },
        ],
        MappedContentModel::FileSystem { fs_type, fs_uuid, fs_label, mount_point } => seq![
            DisplayListItemModel {
                id_path: luks_id + "/fs"@,
                display_text: "      └─ 🗛 "@ + (if fs_type is Some {
                    fs_type->0
                } else {
                    "Filesystem"@
                }) + " on "@ + mn + " ("@ + spec_join(
                    spec_fs_details(fs_type, fs_label, mount_point),
                    ", "@,
                ) + ")"@,
                indent_level: 3,
                item_type: DisplayItemType::FileSystemItem,
                selectable: true,
                size_bytes: Some(p.size_bytes),
            },
        ],
        MappedContentModel::Unknown => Seq::empty(),
    }
}

/// The rows contributed by a partition's content branch.
pub open spec fn spec_content_rows(p: PartitionModel) -> Seq<DisplayListItemModel> {
    match p.content {
        Some(c) => match c {
            PartitionContentModel::LuksContainer { uuid, mapped_name, mapped_content } => seq![
                spec_luks_row(p, uuid, mapped_name),
            ] + if mapped_name is Some && mapped_content is Some {
                spec_luks_child_rows(
                    p,
                    p.path + "/luks/"@ + uuid,
                    mapped_name->0,
                    mapped_content->0,
                )
            } else {
                Seq::empty()
            },
            PartitionContentModel::LvmPhysicalVolume { pv_uuid, vg_name } => seq![
                DisplayListItemModel {
                    id_path: p.path + "/direct_lvm_pv/"@ + pv_uuid,
                    display_text: "    └─ 📦 LVM PV (for VG: "@ + (if vg_name is Some {
                        vg_name->0
                    } else {
                        "Unknown"@
                    }) + ")"@,
                    indent_level: 2,
                    item_type: DisplayItemType::LvmPhysicalVolume,
                    selectable: false,
                    size_bytes: Some(p.size_bytes),
                },
            ],
            PartitionContentModel::Unknown => seq![
                DisplayListItemModel {
                    id_path: p.path + "/unallocated"@,
                    display_text: "    └─ Unallocated or Unknown Space"@,
                    indent_level: 2,
                    item_type: DisplayItemType::UnallocatedSpace,
                    selectable: true,
                    size_bytes: Some(p.size_bytes),
                },
            ],
            PartitionContentModel::FileSystem => Seq::empty(),
            PartitionContentModel::Swap => Seq::empty(),
            PartitionContentModel::VeraCryptContainer { .. } => Seq::empty(),
        },
        None => Seq::empty(),
    }
}

/// All rows of one partition: its own row, then its content rows.
pub open spec fn spec_partition_rows(p: PartitionModel) -> Seq<DisplayListItemModel> {
    seq![spec_partition_row(p)] + spec_content_rows(p)
}

/// The rows of a run of partitions, in order.
pub open spec fn spec_rows_of_partitions(ps: Seq<PartitionModel>) -> Seq<DisplayListItemModel>
    decreases ps.len(),
{
    if ps.len() == 0 {
        Seq::empty()
    } else {
        spec_partition_rows(ps[0]) + spec_rows_of_partitions(ps.drop_first())
    }
}

/// All rows of one disk: its header row, then its partitions' rows.
pub open spec fn spec_disk_rows(d: PhysicalDiskModel) -> Seq<DisplayListItemModel> {
    seq![spec_disk_row(d)] + spec_rows_of_partitions(d.partitions)
}

/// The rows of a run of disks, in order.
pub open spec fn spec_rows_of_disks(ds: Seq<PhysicalDiskModel>) -> Seq<DisplayListItemModel>
    decreases ds.len(),
{
    if ds.len() == 0 {
        Seq::empty()
    } else {
        spec_disk_rows(ds[0]) + spec_rows_of_disks(ds.drop_first())
    }
}

/// The detail tags of a logical volume row.
pub open spec fn spec_lv_details(lv: LvmLogicalVolumeModel) -> Seq<Seq<char>> {
    let with_size = seq![spec_format_size(lv.size_bytes)];
    let with_fs = if lv.fs_type is Some {
        with_size.push(lv.fs_type->0)
    } else {
        with_size
    };
    let with_label = if lv.fs_label is Some {
        with_fs.push("'"@ + lv.fs_label->0 + "'"@)
    } else {
        with_fs
    };
    if lv.mount_point is Some {
        with_label.push("at '"@ + lv.mount_point->0 + "'"@)
    } else {
        with_label
    }
}

/// The row of one logical volume (always selectable).
pub open spec fn spec_lv_row(lv: LvmLogicalVolumeModel) -> DisplayListItemModel {
    DisplayListItemModel {
        id_path: lv.path,
        display_text: if lv.mount_point == Some("/"@) {
            "  └─ 🗛 "@ + lv.name + " ("@ + spec_join(spec_lv_details(lv), ", "@) + ")"@
                + " (Current System Root)"@
        } else {
            "  └─ 🗛 "@ + lv.name + " ("@ + spec_join(spec_lv_details(lv), ", "@) + ")"@
        },
        indent_level: 2,
        item_type: DisplayItemType::LvmLogicalVolume,
        selectable: true,
        size_bytes: Some(lv.size_bytes),
    }
}

/// The rows of a run of logical volumes, in order.
pub open spec fn spec_rows_of_lvs(ls: Seq<LvmLogicalVolumeModel>) -> Seq<DisplayListItemModel>
    decreases ls.len(),
{
    if ls.len() == 0 {
        Seq::empty()
    } else {
        seq![spec_lv_row(ls[0])] + spec_rows_of_lvs(ls.drop_first())
    }
}

/// The header row of one volume group (structural, never selectable).
pub open spec fn spec_vg_row(vg: LvmVolumeGroupModel) -> DisplayListItemModel {
    DisplayListItemModel {
        id_path: "lvm_vg/"@ + vg.name,
        display_text: vg.name + " ("@ + spec_format_size(vg.size_bytes) + ", "@
            + spec_format_size(vg.free_bytes) + " free, PVs: "@ + spec_join(
            vg.physical_volumes,
            ", "@,
        ) + ")"@,
        indent_level: 1,
        item_type: DisplayItemType::LvmVolumeGroup,
        selectable: false,
        size_bytes: Some(vg.size_bytes),
    }
}

/// All rows of one volume group: its header, then its logical volumes.
pub open spec fn spec_vg_rows(vg: LvmVolumeGroupModel) -> Seq<DisplayListItemModel> {
    seq![spec_vg_row(vg)] + spec_rows_of_lvs(vg.logical_volumes)
}

/// The rows of a run of volume groups, in order.
pub open spec fn spec_rows_of_vgs(vgs: Seq<LvmVolumeGroupModel>) -> Seq<DisplayListItemModel>
    decreases vgs.len(),
{
    if vgs.len() == 0 {
        Seq::empty()
    } else {
        spec_vg_rows(vgs[0]) + spec_rows_of_vgs(vgs.drop_first())
    }
}

/// The section label that precedes the volume groups.
pub open spec fn spec_lvm_header_row() -> DisplayListItemModel {
    DisplayListItemModel {
        id_path: "lvm_section_header"@,
        display_text: "\n📦 LVM Volume Groups:"@,
        indent_level: 0,
        item_type: DisplayItemType::Label,
        selectable: false,
        size_bytes: None,
    }
}

/// The full display list of a snapshot: each disk depth-first (disk
/// header, partitions, content rows), then — only if any volume group
/// exists — the LVM section label followed by each group and its logical
/// volumes. Deterministic in the snapshot alone.
pub open spec fn spec_display_list(info: SystemDiskInfoModel) -> Seq<DisplayListItemModel> {
    spec_rows_of_disks(info.disks) + if info.lvm_volume_groups.len() > 0 {
        seq![spec_lvm_header_row()] + spec_rows_of_vgs(info.lvm_volume_groups)
    } else {
        Seq::empty()
    }
}

proof fn lemma_rows_of_partitions_push(ps: Seq<PartitionModel>, p: PartitionModel)
    ensures
        spec_rows_of_partitions(ps.push(p)) =~= spec_rows_of_partitions(ps) + spec_partition_rows(
            p,
        ),
    decreases ps.len(),
{
    if ps.len() == 0 {
        assert(ps.push(p).drop_first() =~= Seq::<PartitionModel>::empty());
        assert(spec_rows_of_partitions(Seq::<PartitionModel>::empty())
            == Seq::<DisplayListItemModel>::empty());
        assert(ps.push(p)[0] == p);
    } else {
        assert(ps.push(p).drop_first() =~= ps.drop_first().push(p));
        lemma_rows_of_partitions_push(ps.drop_first(), p);
        assert(ps.push(p)[0] == ps[0]);
    }
}

proof fn lemma_rows_of_disks_push(ds: Seq<PhysicalDiskModel>, d: PhysicalDiskModel)
    ensures
        spec_rows_of_disks(ds.push(d)) =~= spec_rows_of_disks(ds) + spec_disk_rows(d),
    decreases ds.len(),
{
    if ds.len() == 0 {
        assert(ds.push(d).drop_first() =~= Seq::<PhysicalDiskModel>::empty());
        assert(spec_rows_of_disks(Seq::<PhysicalDiskModel>::empty())
            == Seq::<DisplayListItemModel>::empty());
        assert(ds.push(d)[0] == d);
    } else {
        assert(ds.push(d).drop_first() =~= ds.drop_first().push(d));
        lemma_rows_of_disks_push(ds.drop_first(), d);
        assert(ds.push(d)[0] == ds[0]);
    }
}

proof fn lemma_rows_of_lvs_push(ls: Seq<LvmLogicalVolumeModel>, l: LvmLogicalVolumeModel)
    ensures
        spec_rows_of_lvs(ls.push(l)) =~= spec_rows_of_lvs(ls) + seq![spec_lv_row(l)],
    decreases ls.len(),
{
    if ls.len() == 0 {
        assert(ls.push(l).drop_first() =~= Seq::<LvmLogicalVolumeModel>::empty());
        assert(spec_rows_of_lvs(Seq::<LvmLogicalVolumeModel>::empty())
            == Seq::<DisplayListItemModel>::empty());
        assert(ls.push(l)[0] == l);
    } else {
        assert(ls.push(l).drop_first() =~= ls.drop_first().push(l));
        lemma_rows_of_lvs_push(ls.drop_first(), l);
        assert(ls.push(l)[0] == ls[0]);
    }
}

proof fn lemma_rows_of_vgs_push(vgs: Seq<LvmVolumeGroupModel>, vg: LvmVolumeGroupModel)
    ensures
        spec_rows_of_vgs(vgs.push(vg)) =~= spec_rows_of_vgs(vgs) + spec_vg_rows(vg),
    decreases vgs.len(),
{
    if vgs.len() == 0 {
        assert(vgs.push(vg).drop_first() =~= Seq::<LvmVolumeGroupModel>::empty());
        assert(spec_rows_of_vgs(Seq::<LvmVolumeGroupModel>::empty())
            == Seq::<DisplayListItemModel>::empty());
        assert(vgs.push(vg)[0] == vg);
    } else {
        assert(vgs.push(vg).drop_first() =~= vgs.drop_first().push(vg));
        lemma_rows_of_vgs_push(vgs.drop_first(), vg);
        assert(vgs.push(vg)[0] == vgs[0]);
    }
}

fn push_partition_rows(items: &mut Vec<DisplayListItem>, partition: &Partition)
    ensures
        final(items).deep_view() == old(items).deep_view() + spec_partition_rows(
            partition.deep_view(),
        ),
{
    let ghost pm = partition.deep_view();
    let ghost pre = items.deep_view();

    let mut tags: Vec<String> = Vec::new();
    if let Some(fs_type) = &partition.fs_type {
        tags.push(fs_type.clone());
    }
    let label_opt: &Option<String> = if partition.fs_label.is_some() {
        &partition.fs_label
    } else {
        &partition.part_label
    };
    if let Some(label) = label_opt {
        let mut t = "'".to_owned();
        t.append(label.as_str());
        t.append("'");
        tags.push(t);
    }
    if let Some(mount_point) = &partition.mount_point {
        let mut t = "at '".to_owned();
        t.append(mount_point.as_str());
        t.append("'");
        tags.push(t);
    }
    proof {
        assert(tags.deep_view() =~~= spec_partition_tags(pm));
    }

    let size_str = format_size(partition.size_bytes);
    let tags_joined = join_strings(&tags, ", ");
    let mut text = "  └─ 📄 ".to_owned();
    text.append(partition.path.as_str());
    text.append(" (");
    text.append(size_str.as_str());
    text.append(", ");
    text.append(tags_joined.as_str());
    text.append(")");
    items.push(
        DisplayListItem {
            id_path: partition.path.clone(),
            display_text: text,
            indent_level: 1,
            item_type: DisplayItemType::Partition,
            selectable: true,
            size_bytes: Some(partition.size_bytes),
        },
    );
    proof {
        assert(items.deep_view() =~~= pre.push(spec_partition_row(pm)));
    }
    let ghost mid = items.deep_view();

    match &partition.content {
        Some(PartitionContent::LuksContainer { uuid, mapped_name, mapped_content }) => {
            let mut luks_id = partition.path.clone();
            luks_id.append("/luks/");
            luks_id.append(uuid.as_str());
            let mut luks_text = "    └─ 🔒 LUKS Container (".to_owned();
            luks_text.append(uuid.as_str());
            luks_text.append(")");
            let luks_selectable = mapped_name.is_none();
            match mapped_name {
                Some(mn) => {
                    luks_text.append("  ");
                    luks_text.append(mn.as_str());
                },
                None => {
                    luks_text.append(" - Not active");
                },
            }
            items.push(
                DisplayListItem {
                    id_path: luks_id.clone(),
                    display_text: luks_text,
                    indent_level: 2,
                    item_type: DisplayItemType::LuksContainer,
                    selectable: luks_selectable,
                    size_bytes: Some(partition.size_bytes),
                },
            );
            proof {
                assert(items.deep_view() =~~= mid.push(
                    spec_luks_row(pm, uuid@, mapped_name.deep_view()),
                ));
            }
            let ghost luks_mid = items.deep_view();
            if let (Some(mn), Some(mc)) = (mapped_name, mapped_content) {
                match &**mc {
                    MappedContent::LvmPhysicalVolume(pv_data) => {
                        let mut pv_id = luks_id.clone();
                        pv_id.append("/lvm_pv/");
                        pv_id.append(pv_data.pv_uuid.as_str());
                        let mut pv_text = "      └─ 📦 LVM PV on ".to_owned();
                        pv_text.append(mn.as_str());
                        pv_text.append(" (for VG: ");
                        match &pv_data.vg_name {
                            Some(vg) => pv_text.append(vg.as_str()),
                            None => pv_text.append("Unknown"),
                        }
                        pv_text.append(")");
                        items.push(
                            DisplayListItem {
                                id_path: pv_id,
                                display_text: pv_text,
                                indent_level: 3,
                                item_type: DisplayItemType::LvmPhysicalVolume,
                                selectable: false,
                                size_bytes: Some(pv_data.size_bytes),
                            },
                        );
                        proof {
                            assert(items.deep_view() =~~= mid + spec_content_rows(pm));
                        }
                    },
                    MappedContent::FileSystem { fs_type, fs_uuid: _, fs_label, mount_point } => {
                        let mut details: Vec<String> = Vec::new();
                        match fs_type {
                            Some(t) => details.push(t.clone()),
                            None => details.push("FS".to_owned()),
                        }
                        if let Some(label) = fs_label {
                            let mut t = "'".to_owned();
                            t.append(label.as_str());
                            t.append("'");
                            details.push(t);
                        }
                        if let Some(mp) = mount_point {
                            let mut t = "at '".to_owned();
                            t.append(mp.as_str());
                            t.append("'");
                            details.push(t);
                        }
                        proof {
                            assert(details.deep_view() =~~= spec_fs_details(
                                fs_type.deep_view(),
                                fs_label.deep_view(),
                                mount_point.deep_view(),
                            ));
                        }
                        let details_joined = join_strings(&details, ", ");
                        let mut fs_id = luks_id.clone();
                        fs_id.append("/fs");
                        let mut fs_text = "      └─ 🗛 ".to_owned();
                        match fs_type {
                            Some(t) => fs_text.append(t.as_str()),
                            None => fs_text.append("Filesystem"),
                        }
                        fs_text.append(" on ");
                        fs_text.append(mn.as_str());
                        fs_text.append(" (");
                        fs_text.append(details_joined.as_str());
                        fs_text.append(")");
                        items.push(
                            DisplayListItem {
                                id_path: fs_id,
                                display_text: fs_text,
                                indent_level: 3,
                                item_type: DisplayItemType::FileSystemItem,
                                selectable: true,
                                size_bytes: Some(partition.size_bytes),
                            },
                        );
                        proof {
                            assert(items.deep_view() =~~= mid + spec_content_rows(pm));
                        }
                    },
                    MappedContent::Unknown => {
                        proof {
                            assert(items.deep_view() =~~= mid + spec_content_rows(pm));
                        }
                    },
                }
            } else {
                proof {
                    assert(items.deep_view() =~~= mid + spec_content_rows(pm));
                }
            }
        },
        Some(PartitionContent::LvmPhysicalVolume { pv_uuid, vg_name }) => {
            let mut pv_id = partition.path.clone();
            pv_id.append("/direct_lvm_pv/");
            pv_id.append(pv_uuid.as_str());
            let mut pv_text = "    └─ 📦 LVM PV (for VG: ".to_owned();
            match vg_name {
                Some(vg) => pv_text.append(vg.as_str()),
                None => pv_text.append("Unknown"),
            }
            pv_text.append(")");
            items.push(
                DisplayListItem {
                    id_path: pv_id,
                    display_text: pv_text,
                    indent_level: 2,
                    item_type: DisplayItemType::LvmPhysicalVolume,
                    selectable: false,
                    size_bytes: Some(partition.size_bytes),
                },
            );
            proof {
                assert(items.deep_view() =~~= mid + spec_content_rows(pm));
            }
        },
        Some(PartitionContent::Unknown) => {
            let mut u_id = partition.path.clone();
            u_id.append("/unallocated");
            items.push(
                DisplayListItem {
                    id_path: u_id,
                    display_text: "    └─ Unallocated or Unknown Space".to_owned(),
                    indent_level: 2,
                    item_type: DisplayItemType::UnallocatedSpace,
                    selectable: true,
                    size_bytes: Some(partition.size_bytes),
                },
            );
            proof {
                assert(items.deep_view() =~~= mid + spec_content_rows(pm));
            }
        },
        Some(PartitionContent::FileSystem) => {
            proof {
                assert(items.deep_view() =~~= mid + spec_content_rows(pm));
            }
        },
        Some(PartitionContent::Swap) => {
            proof {
                assert(items.deep_view() =~~= mid + spec_content_rows(pm));
            }
        },
        Some(PartitionContent::VeraCryptContainer { .. }) => {
            proof {
                assert(items.deep_view() =~~= mid + spec_content_rows(pm));
            }
        },
        None => {
            proof {
                assert(items.deep_view() =~~= mid + spec_content_rows(pm));
            }
        },
    }
    proof {
        assert(items.deep_view() =~~= pre + spec_partition_rows(pm));
    }
}

fn push_disk_rows(items: &mut Vec<DisplayListItem>, disk: &PhysicalDisk)
    ensures
        final(items).deep_view() == old(items).deep_view() + spec_disk_rows(disk.deep_view()),
{
    let ghost dm = disk.deep_view();
    let ghost pre = items.deep_view();
    let size_str = format_size(disk.size_bytes);
    let mut text = "💾 ".to_owned();
    text.append(disk.path.as_str());
    text.append(" (");
    match &disk.model {
        Some(m) => text.append(m.as_str()),
        None => text.append("N/A"),
    }
    text.append(", ");
    text.append(size_str.as_str());
    text.append(")");
    items.push(
        DisplayListItem {
            id_path: disk.path.clone(),
            display_text: text,
            indent_level: 0,
            item_type: DisplayItemType::Disk,
            selectable: false,
            size_bytes: Some(disk.size_bytes),
        },
    );
    proof {
        assert(items.deep_view() =~~= pre.push(spec_disk_row(dm)));
    }
    let ghost base = items.deep_view();
    let mut i: usize = 0;
    while i < disk.partitions.len()
        invariant
            i <= disk.partitions.len(),
            dm == disk.deep_view(),
            dm.partitions.len() == disk.partitions.len(),
            items.deep_view() == base + spec_rows_of_partitions(dm.partitions.take(i as int)),
        decreases disk.partitions.len() - i,
    {
        push_partition_rows(items, &disk.partitions[i]);
        proof {
            assert(disk.partitions[i as int].deep_view() == dm.partitions[i as int]);
            assert(dm.partitions.take(i as int).push(dm.partitions[i as int]) =~= dm.partitions.take(
                i as int + 1,
            ));
            lemma_rows_of_partitions_push(
                dm.partitions.take(i as int),
                dm.partitions[i as int],
            );
            assert(items.deep_view() =~= base + spec_rows_of_partitions(
                dm.partitions.take(i as int + 1),
            ));
        }
        i = i + 1;
    }
    proof {
        assert(dm.partitions.take(disk.partitions.len() as int) =~= dm.partitions);
        assert(items.deep_view() =~= pre + spec_disk_rows(dm));
    }
}

fn push_vg_rows(items: &mut Vec<DisplayListItem>, vg: &LvmVolumeGroup)
    ensures
        final(items).deep_view() == old(items).deep_view() + spec_vg_rows(vg.deep_view()),
{
    let ghost vm = vg.deep_view();
    let ghost pre = items.deep_view();
    let size_str = format_size(vg.size_bytes);
    let free_str = format_size(vg.free_bytes);
    let pvs_joined = join_strings(&vg.physical_volumes, ", ");
    let mut vg_id = "lvm_vg/".to_owned();
    vg_id.append(vg.name.as_str());
    let mut text = vg.name.clone();
    text.append(" (");
    text.append(size_str.as_str());
    text.append(", ");
    text.append(free_str.as_str());
    text.append(" free, PVs: ");
    text.append(pvs_joined.as_str());
    text.append(")");
    items.push(
        DisplayListItem {
            id_path: vg_id,
            display_text: text,
            indent_level: 1,
            item_type: DisplayItemType::LvmVolumeGroup,
            selectable: false,
            size_bytes: Some(vg.size_bytes),
        },
    );
    proof {
        assert(items.deep_view() =~~= pre.push(spec_vg_row(vm)));
    }
    let ghost base = items.deep_view();
    let mut i: usize = 0;
    while i < vg.logical_volumes.len()
        invariant
            i <= vg.logical_volumes.len(),
            vm == vg.deep_view(),
            vm.logical_volumes.len() == vg.logical_volumes.len(),
            items.deep_view() == base + spec_rows_of_lvs(vm.logical_volumes.take(i as int)),
        decreases vg.logical_volumes.len() - i,
    {
        let lv = &vg.logical_volumes[i];
        let ghost lm = lv.deep_view();
        let ghost before = items.deep_view();
        let mut details: Vec<String> = Vec::new();
        details.push(format_size(lv.size_bytes));
        if let Some(fs_type) = &lv.fs_type {
            details.push(fs_type.clone());
        }
        if let Some(label) = &lv.fs_label {
            let mut t = "'".to_owned();
            t.append(label.as_str());
            t.append("'");
            details.push(t);
        }
        if let Some(mount) = &lv.mount_point {
            let mut t = "at '".to_owned();
            t.append(mount.as_str());
            t.append("'");
            details.push(t);
        }
        proof {
            assert(details.deep_view() =~~= spec_lv_details(lm));
        }
        let details_joined = join_strings(&details, ", ");
        let mut lv_text = "  └─ 🗛 ".to_owned();
        lv_text.append(lv.name.as_str());
        lv_text.append(" (");
        lv_text.append(details_joined.as_str());
        lv_text.append(")");
        let is_root = match &lv.mount_point {
            Some(m) => str_eq(m.as_str(), "/"),
            None => false,
        };
        if is_root {
            lv_text.append(" (Current System Root)");
        }
        items.push(
            DisplayListItem {
                id_path: lv.path.clone(),
                display_text: lv_text,
                indent_level: 2,
                item_type: DisplayItemType::LvmLogicalVolume,
                selectable: true,
                size_bytes: Some(lv.size_bytes),
            },
        );
        proof {
            assert(lm.mount_point == Some("/"@) <==> is_root);
            assert(lm == vm.logical_volumes[i as int]);
            assert(items.deep_view() =~~= before.push(spec_lv_row(lm)));
            assert(vm.logical_volumes.take(i as int).push(vm.logical_volumes[i as int])
                =~= vm.logical_volumes.take(i as int + 1));
            lemma_rows_of_lvs_push(
                vm.logical_volumes.take(i as int),
                vm.logical_volumes[i as int],
            );
            assert(items.deep_view() =~~= base + spec_rows_of_lvs(
                vm.logical_volumes.take(i as int + 1),
            ));
        }
        i = i + 1;
    }
    proof {
        assert(vm.logical_volumes.take(vg.logical_volumes.len() as int) =~= vm.logical_volumes);
        assert(items.deep_view() =~= pre + spec_vg_rows(vm));
    }
}

/// Builds the flattened list of display rows for disks, partitions, LUKS
/// containers, LVM structures, and filesystems. The result is exactly the
/// model display list of the snapshot: deterministic, depth-first, with
/// hierarchical identifiers stable across rebuilds of the same snapshot.
pub fn build_disk_display_list(disk_info: &SystemDiskInfo) -> (r: Vec<DisplayListItem>)
    ensures
        r.deep_view() == spec_display_list(disk_info.deep_view()),
{
    let ghost im = disk_info.deep_view();
    let mut items: Vec<DisplayListItem> = Vec::new();
    proof {
        assert(items.deep_view() =~= spec_rows_of_disks(im.disks.take(0int)));
    }
    let mut i: usize = 0;
    while i < disk_info.disks.len()
        invariant
            i <= disk_info.disks.len(),
            im == disk_info.deep_view(),
            im.disks.len() == disk_info.disks.len(),
            items.deep_view() == spec_rows_of_disks(im.disks.take(i as int)),
        decreases disk_info.disks.len() - i,
    {
        push_disk_rows(&mut items, &disk_info.disks[i]);
        proof {
            assert(disk_info.disks[i as int].deep_view() == im.disks[i as int]);
            assert(im.disks.take(i as int).push(im.disks[i as int]) =~= im.disks.take(i as int + 1));
            lemma_rows_of_disks_push(im.disks.take(i as int), im.disks[i as int]);
            assert(items.deep_view() =~= spec_rows_of_disks(im.disks.take(i as int + 1)));
        }
        i = i + 1;
    }
    proof {
        assert(im.disks.take(disk_info.disks.len() as int) =~= im.disks);
    }

    if !disk_info.lvm_volume_groups.is_empty() {
        let ghost disks_rows = items.deep_view();
        items.push(
            DisplayListItem {
                id_path: "lvm_section_header".to_owned(),
                display_text: "\n📦 LVM Volume Groups:".to_owned(),
                indent_level: 0,
                item_type: DisplayItemType::Label,
                selectable: false,
                size_bytes: None,
            },
        );
        proof {
            assert(items.deep_view() =~~= disks_rows.push(spec_lvm_header_row()));
        }
        let ghost base = items.deep_view();
        let mut j: usize = 0;
        while j < disk_info.lvm_volume_groups.len()
            invariant
                j <= disk_info.lvm_volume_groups.len(),
                im == disk_info.deep_view(),
                im.lvm_volume_groups.len() == disk_info.lvm_volume_groups.len(),
                items.deep_view() == base + spec_rows_of_vgs(im.lvm_volume_groups.take(j as int)),
            decreases disk_info.lvm_volume_groups.len() - j,
        {
            push_vg_rows(&mut items, &disk_info.lvm_volume_groups[j]);
            proof {
                assert(disk_info.lvm_volume_groups[j as int].deep_view()
                    == im.lvm_volume_groups[j as int]);
                assert(im.lvm_volume_groups.take(j as int).push(im.lvm_volume_groups[j as int])
                    =~= im.lvm_volume_groups.take(j as int + 1));
                lemma_rows_of_vgs_push(
                    im.lvm_volume_groups.take(j as int),
                    im.lvm_volume_groups[j as int],
                );
                assert(items.deep_view() =~= base + spec_rows_of_vgs(
                    im.lvm_volume_groups.take(j as int + 1),
                ));
            }
            j = j + 1;
        }
        proof {
            assert(im.lvm_volume_groups.take(disk_info.lvm_volume_groups.len() as int)
                =~= im.lvm_volume_groups);
            assert(items.deep_view() =~= spec_display_list(im));
        }
    } else {
        proof {
            assert(items.deep_view() =~= spec_display_list(im));
        }
    }
    items
}

/// Law: rebuilding the display list from the same snapshot keeps a
/// previously selected row's identifier present and selectable, because
/// the list is a function of the snapshot alone.
pub proof fn lemma_rebuild_preserves_selection(info: SystemDiskInfoModel, i: int)
    requires
        0 <= i < spec_display_list(info).len(),
        spec_display_list(info)[i].selectable,
    ensures
        exists|j: int|
            0 <= j < spec_display_list(info).len() && (#[trigger] spec_display_list(info)[j]).id_path
                == spec_display_list(info)[i].id_path && spec_display_list(info)[j].selectable,
{
    assert(spec_display_list(info)[i].id_path == spec_display_list(info)[i].id_path
        && spec_display_list(info)[i].selectable);
}

} // verus!
