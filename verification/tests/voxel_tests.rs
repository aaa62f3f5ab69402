use primordium::voxel::{Voxel, VoxelType};
use primordium::genome::Genome;

#[test]
fn roundtrip_empty() {
    let v = Voxel::default();
    let packed = v.pack();
    let v2 = Voxel::unpack(packed);
    assert_eq!(v, v2);
}

#[test]
fn roundtrip_protocell() {
    let v = Voxel {
        voxel_type: VoxelType::Protocell,
        flags: 0x55,
        energy: 1000,
        age: 42,
        species_id: 12345,
        genome: Genome { bytes: [10, 20, 30, 40, 50, 60, 70, 80, 90, 100, 110, 0, 0, 0, 0, 0] },
        extra: [0xDEAD, 0xBEEF],
    };
    let packed = v.pack();
    let v2 = Voxel::unpack(packed);
    assert_eq!(v, v2);
}

#[test]
fn roundtrip_max_values() {
    let v = Voxel {
        voxel_type: VoxelType::ColdSource,
        flags: 0xFF,
        energy: 0xFFFF,
        age: 0xFFFF,
        species_id: 0xFFFF,
        genome: Genome { bytes: [0xFF; 16] },
        extra: [0xFFFFFFFF, 0xFFFFFFFF],
    };
    let packed = v.pack();
    let v2 = Voxel::unpack(packed);
    assert_eq!(v, v2);
}

#[test]
fn word_layout_matches_spec() {
    let v = Voxel {
        voxel_type: VoxelType::Protocell, // 4
        flags: 0xAB,
        energy: 0x1234,
        age: 0x5678,
        species_id: 0x9ABC,
        genome: Genome::default(),
        extra: [0; 2],
    };
    let words = v.pack();

    // Word 0: [0:7]=type=4, [8:15]=flags=0xAB, [16:31]=energy=0x1234
    assert_eq!(words[0] & 0xFF, 4);
    assert_eq!((words[0] >> 8) & 0xFF, 0xAB);
    assert_eq!((words[0] >> 16) & 0xFFFF, 0x1234);

    // Word 1: [0:15]=age=0x5678, [16:31]=species_id=0x9ABC
    assert_eq!(words[1] & 0xFFFF, 0x5678);
    assert_eq!((words[1] >> 16) & 0xFFFF, 0x9ABC);
}

#[test]
fn voxel_type_from_u8_valid() {
    assert_eq!(VoxelType::from_u8(0), VoxelType::Empty);
    assert_eq!(VoxelType::from_u8(4), VoxelType::Protocell);
    assert_eq!(VoxelType::from_u8(7), VoxelType::ColdSource);
}

#[test]
fn voxel_type_from_u8_invalid_defaults_empty() {
    assert_eq!(VoxelType::from_u8(8), VoxelType::Empty);
    assert_eq!(VoxelType::from_u8(255), VoxelType::Empty);
}

#[test]
fn pack_energy_boundaries() {
    for energy in [0u16, 1, 65534, 65535] {
        let v = Voxel {
            voxel_type: VoxelType::Protocell,
            energy,
            ..Default::default()
        };
        let v2 = Voxel::unpack(v.pack());
        assert_eq!(v2.energy, energy, "energy {energy} not preserved");
    }
}

#[test]
fn pack_genome_all_bytes() {
    let mut genome = Genome::default();
    for i in 0u8..16 {
        genome.bytes[i as usize] = i * 17;
    }
    let v = Voxel {
        voxel_type: VoxelType::Protocell,
        genome,
        ..Default::default()
    };
    let v2 = Voxel::unpack(v.pack());
    for i in 0..16 {
        assert_eq!(v2.genome.bytes[i], (i as u8) * 17, "genome byte {i} mismatch");
    }
}
