//! Disk topology snapshot: disks, partitions, LUKS containers, and LVM
//! structures, together with their mathematical models and the fixed
//! sample snapshot used while real disk enumeration is stubbed out.
use vstd::prelude::*;
use vstd::string::StringExecFns;

verus! {

/// Immutable snapshot of the system's disk and LVM layout.
#[derive(Debug, Clone)]
pub struct SystemDiskInfo {
    pub disks: Vec<PhysicalDisk>,
    pub lvm_volume_groups: Vec<LvmVolumeGroup>,
}

/// One physical disk with its partitions.
#[derive(Debug, Clone)]
pub struct PhysicalDisk {
    pub path: String,
    pub model: Option<String>,
    pub vendor: Option<String>,
    pub size_bytes: u64,
    pub rota: bool,
    pub partitions: Vec<Partition>,
}

/// One partition and what is inside it.
#[derive(Debug, Clone)]
pub struct Partition {
    pub path: String,
    pub part_type_guid: Option<String>,
    pub part_label: Option<String>,
    pub part_uuid: Option<String>,
    pub part_flags: Option<String>,
    pub fs_type: Option<String>,
    pub fs_uuid: Option<String>,
    pub fs_label: Option<String>,
    pub size_bytes: u64,
    pub mount_point: Option<String>,
    pub content: Option<PartitionContent>,
}

/// The content branch of a partition.
#[derive(Debug, Clone)]
pub enum PartitionContent {
    FileSystem,
    LuksContainer { uuid: String, mapped_name: Option<String>, mapped_content: Option<Box<MappedContent>> },
    LvmPhysicalVolume { pv_uuid: String, vg_name: Option<String> },
    VeraCryptContainer { is_mounted: bool, mount_path: Option<String> },
    Unknown,
    Swap,
}

/// Content of an opened LUKS container.
#[derive(Debug, Clone)]
pub enum MappedContent {
    LvmPhysicalVolume(LvmPhysicalVolumeData),
    FileSystem {
        fs_type: Option<String>,
        fs_uuid: Option<String>,
        fs_label: Option<String>,
        mount_point: Option<String>,
    },
    Unknown,
}

/// Data of an LVM physical volume, directly on a partition or in LUKS.
#[derive(Debug, Clone)]
pub struct LvmPhysicalVolumeData {
    pub path: String,
    pub pv_uuid: String,
    pub vg_name: Option<String>,
    pub size_bytes: u64,
    pub free_bytes: u64,
}

/// One LVM volume group with its logical volumes.
#[derive(Debug, Clone)]
pub struct LvmVolumeGroup {
    pub name: String,
    pub uuid: String,
    pub size_bytes: u64,
    pub free_bytes: u64,
    pub physical_volumes: Vec<String>,
    pub logical_volumes: Vec<LvmLogicalVolume>,
}

/// One LVM logical volume.
#[derive(Debug, Clone)]
pub struct LvmLogicalVolume {
    pub name: String,
    pub path: String,
    pub uuid: String,
    pub size_bytes: u64,
    pub fs_type: Option<String>,
    pub fs_uuid: Option<String>,
    pub fs_label: Option<String>,
    pub mount_point: Option<String>,
}

/// Model of a snapshot.
#[verifier::ext_equal]
pub struct SystemDiskInfoModel {
    pub disks: Seq<PhysicalDiskModel>,
    pub lvm_volume_groups: Seq<LvmVolumeGroupModel>,
}

/// Model of a physical disk.
#[verifier::ext_equal]
pub struct PhysicalDiskModel {
    pub path: Seq<char>,
    pub model: Option<Seq<char>>,
    pub vendor: Option<Seq<char>>,
    pub size_bytes: u64,
    pub rota: bool,
    pub partitions: Seq<PartitionModel>,
}

/// Model of a partition.
#[verifier::ext_equal]
pub struct PartitionModel {
    pub path: Seq<char>,
    pub part_type_guid: Option<Seq<char>>,
    pub part_label: Option<Seq<char>>,
    pub part_uuid: Option<Seq<char>>,
    pub part_flags: Option<Seq<char>>,
    pub fs_type: Option<Seq<char>>,
    pub fs_uuid: Option<Seq<char>>,
    pub fs_label: Option<Seq<char>>,
    pub size_bytes: u64,
    pub mount_point: Option<Seq<char>>,
    pub content: Option<PartitionContentModel>,
}

/// Model of a partition's content branch.
#[verifier::ext_equal]
pub enum PartitionContentModel {
    FileSystem,
    LuksContainer {
        uuid: Seq<char>,
        mapped_name: Option<Seq<char>>,
        mapped_content: Option<MappedContentModel>,
    },
    LvmPhysicalVolume { pv_uuid: Seq<char>, vg_name: Option<Seq<char>> },
    VeraCryptContainer { is_mounted: bool, mount_path: Option<Seq<char>> },
    Unknown,
    Swap,
}

/// Model of an opened LUKS container's content.
#[verifier::ext_equal]
pub enum MappedContentModel {
    LvmPhysicalVolume(LvmPhysicalVolumeDataModel),
    FileSystem {
        fs_type: Option<Seq<char>>,
        fs_uuid: Option<Seq<char>>,
        fs_label: Option<Seq<char>>,
        mount_point: Option<Seq<char>>,
    },
    Unknown,
}

/// Model of an LVM physical volume.
#[verifier::ext_equal]
pub struct LvmPhysicalVolumeDataModel {
    pub path: Seq<char>,
    pub pv_uuid: Seq<char>,
    pub vg_name: Option<Seq<char>>,
    pub size_bytes: u64,
    pub free_bytes: u64,
}

/// Model of an LVM volume group.
#[verifier::ext_equal]
pub struct LvmVolumeGroupModel {
    pub name: Seq<char>,
    pub uuid: Seq<char>,
    pub size_bytes: u64,
    pub free_bytes: u64,
    pub physical_volumes: Seq<Seq<char>>,
    pub logical_volumes: Seq<LvmLogicalVolumeModel>,
}

/// Model of an LVM logical volume.
#[verifier::ext_equal]
pub struct LvmLogicalVolumeModel {
    pub name: Seq<char>,
    pub path: Seq<char>,
    pub uuid: Seq<char>,
    pub size_bytes: u64,
    pub fs_type: Option<Seq<char>>,
    pub fs_uuid: Option<Seq<char>>,
    pub fs_label: Option<Seq<char>>,
    pub mount_point: Option<Seq<char>>,
}

impl DeepView for SystemDiskInfo {
    type V = SystemDiskInfoModel;

    open spec fn deep_view(&self) -> SystemDiskInfoModel {
        SystemDiskInfoModel {
            disks: self.disks.deep_view(),
            lvm_volume_groups: self.lvm_volume_groups.deep_view(),
        }
    }
}

impl DeepView for PhysicalDisk {
    type V = PhysicalDiskModel;

    open spec fn deep_view(&self) -> PhysicalDiskModel {
        PhysicalDiskModel {
            path: self.path@,
            model: self.model.deep_view(),
            vendor: self.vendor.deep_view(),
            size_bytes: self.size_bytes,
            rota: self.rota,
            partitions: self.partitions.deep_view(),
        }
    }
}

impl DeepView for Partition {
    type V = PartitionModel;

    open spec fn deep_view(&self) -> PartitionModel {
        PartitionModel {
            path: self.path@,
            part_type_guid: self.part_type_guid.deep_view(),
            part_label: self.part_label.deep_view(),
            part_uuid: self.part_uuid.deep_view(),
            part_flags: self.part_flags.deep_view(),
            fs_type: self.fs_type.deep_view(),
            fs_uuid: self.fs_uuid.deep_view(),
            fs_label: self.fs_label.deep_view(),
            size_bytes: self.size_bytes,
            mount_point: self.mount_point.deep_view(),
            content: self.content.deep_view(),
        }
    }
}

impl DeepView for PartitionContent {
    type V = PartitionContentModel;

    open spec fn deep_view(&self) -> PartitionContentModel {
        match self {
            PartitionContent::FileSystem => PartitionContentModel::FileSystem,
            PartitionContent::LuksContainer { uuid, mapped_name, mapped_content } => PartitionContentModel::LuksContainer {
                uuid: uuid@,
                mapped_name: mapped_name.deep_view(),
                mapped_content: mapped_content.deep_view(),
            },
            PartitionContent::LvmPhysicalVolume { pv_uuid, vg_name } => PartitionContentModel::LvmPhysicalVolume {
                pv_uuid: pv_uuid@,
                vg_name: vg_name.deep_view(),
            },
            PartitionContent::VeraCryptContainer { is_mounted, mount_path } => PartitionContentModel::VeraCryptContainer {
                is_mounted: *is_mounted,
                mount_path: mount_path.deep_view(),
            },
            PartitionContent::Unknown => PartitionContentModel::Unknown,
            PartitionContent::Swap => PartitionContentModel::Swap,
        }
    }
}

impl DeepView for MappedContent {
    type V = MappedContentModel;

    open spec fn deep_view(&self) -> MappedContentModel {
        match self {
            MappedContent::LvmPhysicalVolume(d) => MappedContentModel::LvmPhysicalVolume(
                d.deep_view(),
            ),
            MappedContent::FileSystem { fs_type, fs_uuid, fs_label, mount_point } => MappedContentModel::FileSystem {
                fs_type: fs_type.deep_view(),
                fs_uuid: fs_uuid.deep_view(),
                fs_label: fs_label.deep_view(),
                mount_point: mount_point.deep_view(),
            },
            MappedContent::Unknown => MappedContentModel::Unknown,
        }
    }
}

impl DeepView for LvmPhysicalVolumeData {
    type V = LvmPhysicalVolumeDataModel;

    open spec fn deep_view(&self) -> LvmPhysicalVolumeDataModel {
        LvmPhysicalVolumeDataModel {
            path: self.path@,
            pv_uuid: self.pv_uuid@,
            vg_name: self.vg_name.deep_view(),
            size_bytes: self.size_bytes,
            free_bytes: self.free_bytes,
        }
    }
}

impl DeepView for LvmVolumeGroup {
    type V = LvmVolumeGroupModel;

    open spec fn deep_view(&self) -> LvmVolumeGroupModel {
        LvmVolumeGroupModel {
            name: self.name@,
            uuid: self.uuid@,
            size_bytes: self.size_bytes,
            free_bytes: self.free_bytes,
            physical_volumes: self.physical_volumes.deep_view(),
            logical_volumes: self.logical_volumes.deep_view(),
        }
    }
}

impl DeepView for LvmLogicalVolume {
    type V = LvmLogicalVolumeModel;

    open spec fn deep_view(&self) -> LvmLogicalVolumeModel {
        LvmLogicalVolumeModel {
            name: self.name@,
            path: self.path@,
            uuid: self.uuid@,
            size_bytes: self.size_bytes,
            fs_type: self.fs_type.deep_view(),
            fs_uuid: self.fs_uuid.deep_view(),
            fs_label: self.fs_label.deep_view(),
            mount_point: self.mount_point.deep_view(),
        }
    }
}

/// Model of the sample snapshot's first disk: an SSD carrying an EFI
/// system partition and a LUKS container holding an LVM physical volume.
pub open spec fn spec_dummy_sda() -> PhysicalDiskModel {
    PhysicalDiskModel {
        path: "/dev/sda"@,
        model: Some("Samsung SSD 970 EVO"@),
        vendor: Some("Samsung"@),
        size_bytes: (250 * 1024 * 1024 * 1024) as u64,
        rota: false,
        partitions: seq![
            PartitionModel {
                path: "/dev/sda1"@,
                part_type_guid: Some("C12A7328-F81F-11D2-BA4B-00A0C93EC93B"@),
                part_label: Some("EFI System Partition"@),
                part_uuid: None,
                part_flags: None,
                fs_type: Some("vfat"@),
                fs_uuid: Some("A1B2-C3D4"@),
                fs_label: None,
                size_bytes: (512 * 1024 * 1024) as u64,
                mount_point: Some("/boot/efi"@),
                content: Some(PartitionContentModel::FileSystem),
            },
            PartitionModel {
                path: "/dev/sda2"@,
                part_type_guid: None,
                part_label: None,
                part_uuid: None,
                part_flags: None,
                fs_type: Some("crypto_LUKS"@),
                fs_uuid: None,
                fs_label: None,
                size_bytes: (249_000_000_000 - 512 * 1024 * 1024) as u64,
                mount_point: None,
                content: Some(
                    PartitionContentModel::LuksContainer {
                        uuid: "luks-uuid-sda2"@,
                        mapped_name: Some("cr_lvm"@),
                        mapped_content: Some(
                            MappedContentModel::LvmPhysicalVolume(
                                LvmPhysicalVolumeDataModel {
                                    path: "/dev/mapper/cr_lvm"@,
                                    pv_uuid: "lvm-pv-uuid-on-cr_lvm"@,
                                    vg_name: Some("vg_system"@),
                                    size_bytes: (249_000_000_000 - 512 * 1024 * 1024) as u64,
                                    free_bytes: 10_000_000_000u64,
                                },
                            ),
                        ),
                    },
                ),
            },
        ],
    }
}

/// Model of the sample snapshot's second disk: an HDD with an NTFS data
/// partition and a stretch of unallocated space.
pub open spec fn spec_dummy_sdb() -> PhysicalDiskModel {
    PhysicalDiskModel {
        path: "/dev/sdb"@,
        model: Some("WD Blue HDD"@),
        vendor: Some("Western Digital"@),
        size_bytes: (1000 * 1024 * 1024 * 1024) as u64,
        rota: true,
        partitions: seq![
            PartitionModel {
                path: "/dev/sdb1"@,
                part_type_guid: None,
                part_label: None,
                part_uuid: None,
                part_flags: None,
                fs_type: Some("ntfs"@),
                fs_uuid: None,
                fs_label: Some("WindowsData"@),
                size_bytes: (500 * 1024 * 1024 * 1024) as u64,
                mount_point: None,
                content: Some(PartitionContentModel::FileSystem),
            },
            PartitionModel {
                path: "/dev/sdb2"@,
                part_type_guid: None,
                part_label: None,
                part_uuid: None,
                part_flags: None,
                fs_type: None,
                fs_uuid: None,
                fs_label: None,
                size_bytes: (500 * 1024 * 1024 * 1024) as u64,
                mount_point: None,
                content: Some(PartitionContentModel::Unknown),
            },
        ],
    }
}

/// Model of the sample snapshot's third disk: an NVMe drive with swap and
/// an LVM physical volume directly on a partition.
pub open spec fn spec_dummy_nvme() -> PhysicalDiskModel {
    PhysicalDiskModel {
        path: "/dev/nvme0n1"@,
        model: Some("Kingston NVMe"@),
        vendor: Some("Kingston"@),
        size_bytes: (500 * 1024 * 1024 * 1024) as u64,
        rota: false,
        partitions: seq![
            PartitionModel {
                path: "/dev/nvme0n1p1"@,
                part_type_guid: None,
                part_label: None,
                part_uuid: None,
                part_flags: None,
                fs_type: Some("linux-swap"@),
                fs_uuid: None,
                fs_label: None,
                size_bytes: (16 * 1024 * 1024 * 1024) as u64,
                mount_point: None,
                content: Some(PartitionContentModel::Swap),
            },
            PartitionModel {
                path: "/dev/nvme0n1p2"@,
                part_type_guid: None,
                part_label: None,
                part_uuid: None,
                part_flags: None,
                fs_type: Some("LVM2_member"@),
                fs_uuid: None,
                fs_label: None,
                size_bytes: (480 * 1024 * 1024 * 1024) as u64,
                mount_point: None,
                content: Some(
                    PartitionContentModel::LvmPhysicalVolume {
                        pv_uuid: "lvm-pv-uuid-on-nvme"@,
                        vg_name: Some("vg_data"@),
                    },
                ),
            },
        ],
    }
}

/// Model of the sample snapshot's system volume group (inside LUKS).
pub open spec fn spec_dummy_vg_system() -> LvmVolumeGroupModel {
    LvmVolumeGroupModel {
        name: "vg_system"@,
        uuid: "vg-uuid-system"@,
        size_bytes: 240_000_000_000u64,
        free_bytes: 10_000_000_000u64,
        physical_volumes: seq!["/dev/mapper/cr_lvm"@],
        logical_volumes: seq![
            LvmLogicalVolumeModel {
                name: "lv_root"@,
                path: "/dev/vg_system/lv_root"@,
                uuid: "lv-uuid-root"@,
                size_bytes: (100 * 1024 * 1024 * 1024) as u64,
                fs_type: Some("ext4"@),
                fs_uuid: None,
                fs_label: None,
                mount_point: Some("/"@),
            },
            LvmLogicalVolumeModel {
                name: "lv_home"@,
                path: "/dev/vg_system/lv_home"@,
                uuid: "lv-uuid-home"@,
                size_bytes: (130 * 1024 * 1024 * 1024) as u64,
                fs_type: Some("ext4"@),
                fs_uuid: None,
                fs_label: None,
                mount_point: Some("/home"@),
            },
        ],
    }
}

/// Model of the sample snapshot's data volume group.
pub open spec fn spec_dummy_vg_data() -> LvmVolumeGroupModel {
    LvmVolumeGroupModel {
        name: "vg_data"@,
        uuid: "vg-uuid-data"@,
        size_bytes: (480 * 1024 * 1024 * 1024) as u64,
        free_bytes: 0u64,
        physical_volumes: seq!["/dev/nvme0n1p2"@],
        logical_volumes: seq![
            LvmLogicalVolumeModel {
                name: "lv_games"@,
                path: "/dev/vg_data/lv_games"@,
                uuid: "lv-uuid-games"@,
                size_bytes: (480 * 1024 * 1024 * 1024) as u64,
                fs_type: Some("btrfs"@),
                fs_uuid: None,
                fs_label: None,
                mount_point: Some("/mnt/games"@),
            },
        ],
    }
}

/// Model of the whole sample snapshot.
pub open spec fn spec_dummy_system_disk_info() -> SystemDiskInfoModel {
    SystemDiskInfoModel {
        disks: seq![spec_dummy_sda(), spec_dummy_sdb(), spec_dummy_nvme()],
        lvm_volume_groups: seq![spec_dummy_vg_system(), spec_dummy_vg_data()],
    }
}

/// The fixed sample snapshot that stands in for real disk enumeration:
/// three disks (SSD with EFI and LUKS-wrapped LVM, HDD with NTFS and free
/// space, NVMe with swap and a direct LVM physical volume) and the two
/// volume groups living on them.
pub fn create_dummy_system_disk_info() -> (r: SystemDiskInfo)
    ensures
        r.deep_view() == spec_dummy_system_disk_info(),
{
    let mut disks: Vec<PhysicalDisk> = Vec::new();
    let mut lvm_vgs: Vec<LvmVolumeGroup> = Vec::new();

    let mut sda_partitions: Vec<Partition> = Vec::new();
    sda_partitions.push(
        Partition {
            path: "/dev/sda1".to_owned(),
            part_type_guid: Some("C12A7328-F81F-11D2-BA4B-00A0C93EC93B".to_owned()),
            part_label: Some("EFI System Partition".to_owned()),
            part_uuid: None,
            part_flags: None,
            fs_type: Some("vfat".to_owned()),
            fs_uuid: Some("A1B2-C3D4".to_owned()),
            fs_label: None,
            size_bytes: 512 * 1024 * 1024,
            mount_point: Some("/boot/efi".to_owned()),
            content: Some(PartitionContent::FileSystem),
        },
    );
    sda_partitions.push(
        Partition {
            path: "/dev/sda2".to_owned(),
            part_type_guid: None,
            part_label: None,
            part_uuid: None,
            part_flags: None,
            fs_type: Some("crypto_LUKS".to_owned()),
            fs_uuid: None,
            fs_label: None,
            size_bytes: 249_000_000_000 - 512 * 1024 * 1024,
            mount_point: None,
            content: Some(
                PartitionContent::LuksContainer {
                    uuid: "luks-uuid-sda2".to_owned(),
                    mapped_name: Some("cr_lvm".to_owned()),
                    mapped_content: Some(
                        Box::new(
                            MappedContent::LvmPhysicalVolume(
                                LvmPhysicalVolumeData {
                                    path: "/dev/mapper/cr_lvm".to_owned(),
                                    pv_uuid: "lvm-pv-uuid-on-cr_lvm".to_owned(),
                                    vg_name: Some("vg_system".to_owned()),
                                    size_bytes: 249_000_000_000 - 512 * 1024 * 1024,
                                    free_bytes: 10_000_000_000,
                                },
                            ),
                        ),
                    ),
                },
            ),
        },
    );
    disks.push(
        PhysicalDisk {
            path: "/dev/sda".to_owned(),
            model: Some("Samsung SSD 970 EVO".to_owned()),
            vendor: Some("Samsung".to_owned()),
            size_bytes: 250 * 1024 * 1024 * 1024,
            rota: false,
            partitions: sda_partitions,
        },
    );

    let mut vg_system_lvs: Vec<LvmLogicalVolume> = Vec::new();
    vg_system_lvs.push(
        LvmLogicalVolume {
            name: "lv_root".to_owned(),
            path: "/dev/vg_system/lv_root".to_owned(),
            uuid: "lv-uuid-root".to_owned(),
            size_bytes: 100 * 1024 * 1024 * 1024,
            fs_type: Some("ext4".to_owned()),
            fs_uuid: None,
            fs_label: None,
            mount_point: Some("/".to_owned()),
        },
    );
    vg_system_lvs.push(
        LvmLogicalVolume {
            name: "lv_home".to_owned(),
            path: "/dev/vg_system/lv_home".to_owned(),
            uuid: "lv-uuid-home".to_owned(),
            size_bytes: 130 * 1024 * 1024 * 1024,
            fs_type: Some("ext4".to_owned()),
            fs_uuid: None,
            fs_label: None,
            mount_point: Some("/home".to_owned()),
        },
    );
    let mut vg_system_pvs: Vec<String> = Vec::new();
    vg_system_pvs.push("/dev/mapper/cr_lvm".to_owned());
    lvm_vgs.push(
        LvmVolumeGroup {
            name: "vg_system".to_owned(),
            uuid: "vg-uuid-system".to_owned(),
            size_bytes: 240_000_000_000,
            free_bytes: 10_000_000_000,
            physical_volumes: vg_system_pvs,
            logical_volumes: vg_system_lvs,
        },
    );

    let mut sdb_partitions: Vec<Partition> = Vec::new();
    sdb_partitions.push(
        Partition {
            path: "/dev/sdb1".to_owned(),
            part_type_guid: None,
            part_label: None,
            part_uuid: None,
            part_flags: None,
            fs_type: Some("ntfs".to_owned()),
            fs_uuid: None,
            fs_label: Some("WindowsData".to_owned()),
            size_bytes: 500 * 1024 * 1024 * 1024,
            mount_point: None,
            content: Some(PartitionContent::FileSystem),
        },
    );
    sdb_partitions.push(
        Partition {
            path: "/dev/sdb2".to_owned(),
            part_type_guid: None,
            part_label: None,
            part_uuid: None,
            part_flags: None,
            fs_type: None,
            fs_uuid: None,
            fs_label: None,
            size_bytes: 500 * 1024 * 1024 * 1024,
            mount_point: None,
            content: Some(PartitionContent::Unknown),
        },
    );
    disks.push(
        PhysicalDisk {
            path: "/dev/sdb".to_owned(),
            model: Some("WD Blue HDD".to_owned()),
            vendor: Some("Western Digital".to_owned()),
            size_bytes: 1000 * 1024 * 1024 * 1024,
            rota: true,
            partitions: sdb_partitions,
        },
    );

    let mut nvme_partitions: Vec<Partition> = Vec::new();
    nvme_partitions.push(
        Partition {
            path: "/dev/nvme0n1p1".to_owned(),
            part_type_guid: None,
            part_label: None,
            part_uuid: None,
            part_flags: None,
            fs_type: Some("linux-swap".to_owned()),
            fs_uuid: None,
            fs_label: None,
            size_bytes: 16 * 1024 * 1024 * 1024,
            mount_point: None,
            content: Some(PartitionContent::Swap),
        },
    );
    nvme_partitions.push(
        Partition {
            path: "/dev/nvme0n1p2".to_owned(),
            part_type_guid: None,
            part_label: None,
            part_uuid: None,
            part_flags: None,
            fs_type: Some("LVM2_member".to_owned()),
            fs_uuid: None,
            fs_label: None,
            size_bytes: 480 * 1024 * 1024 * 1024,
            mount_point: None,
            content: Some(
                PartitionContent::LvmPhysicalVolume {
                    pv_uuid: "lvm-pv-uuid-on-nvme".to_owned(),
                    vg_name: Some("vg_data".to_owned()),
                },
            ),
        },
    );
    disks.push(
        PhysicalDisk {
            path: "/dev/nvme0n1".to_owned(),
            model: Some("Kingston NVMe".to_owned()),
            vendor: Some("Kingston".to_owned()),
            size_bytes: 500 * 1024 * 1024 * 1024,
            rota: false,
            partitions: nvme_partitions,
        },
    );

    let mut vg_data_lvs: Vec<LvmLogicalVolume> = Vec::new();
    vg_data_lvs.push(
        LvmLogicalVolume {
            name: "lv_games".to_owned(),
            path: "/dev/vg_data/lv_games".to_owned(),
            uuid: "lv-uuid-games".to_owned(),
            size_bytes: 480 * 1024 * 1024 * 1024,
            fs_type: Some("btrfs".to_owned()),
            fs_uuid: None,
            fs_label: None,
            mount_point: Some("/mnt/games".to_owned()),
        },
    );
    let mut vg_data_pvs: Vec<String> = Vec::new();
    vg_data_pvs.push("/dev/nvme0n1p2".to_owned());
    lvm_vgs.push(
        LvmVolumeGroup {
            name: "vg_data".to_owned(),
            uuid: "vg-uuid-data".to_owned(),
            size_bytes: 480 * 1024 * 1024 * 1024,
            free_bytes: 0,
            physical_volumes: vg_data_pvs,
            logical_volumes: vg_data_lvs,
        },
    );

    let info = SystemDiskInfo { disks, lvm_volume_groups: lvm_vgs };
    proof {
        assert(info.disks@[0].deep_view() =~~= spec_dummy_sda());
        assert(info.disks@[1].deep_view() =~~= spec_dummy_sdb());
        assert(info.disks@[2].deep_view() =~~= spec_dummy_nvme());
        assert(info.lvm_volume_groups@[0].deep_view() =~~= spec_dummy_vg_system());
        assert(info.lvm_volume_groups@[1].deep_view() =~~= spec_dummy_vg_data());
        assert(info.deep_view() =~~= spec_dummy_system_disk_info());
    }
    info
}

} // verus!
