//! Tests of the decoder's laws on concrete buffers: byte-order round
//! trips, aliasing and fallback of collision-header lists, absence
//! handling, and the structural error cases.

use mkbviewer::common::BananaType;
use mkbviewer::common::DecodeError;
use mkbviewer::common::Endianness;
use mkbviewer::common::Game;
use mkbviewer::common::GlobalStagedefObject;
use mkbviewer::common::GoalType;
use mkbviewer::common::StageDefObject;
use mkbviewer::instance::StageDefInstance;
use mkbviewer::objects::BackgroundModel;
use mkbviewer::objects::Banana;
use mkbviewer::objects::Bumper;
use mkbviewer::objects::ConeCollisionObject;
use mkbviewer::objects::CylinderCollisionObject;
use mkbviewer::objects::FalloutVolume;
use mkbviewer::objects::Goal;
use mkbviewer::objects::Jamabar;
use mkbviewer::objects::SphereCollisionObject;
use mkbviewer::parser::decode;
use mkbviewer::parser::FileOffset;
use mkbviewer::parser::StageDefReader;
use mkbviewer::parser::read_model_name_from_offset;
use mkbviewer::stagedef::CollisionHeader;
use mkbviewer::viewer::FileHandleWrapper;
use mkbviewer::viewer::MkbFileType;

fn put_u32(buf: &mut Vec<u8>, off: usize, v: u32, e: Endianness) {
    let bytes = match e {
        Endianness::BigEndian => v.to_be_bytes(),
        Endianness::LittleEndian => v.to_le_bytes(),
    };
    buf[off..off + 4].copy_from_slice(&bytes);
}

/// A small fixture: a two-goal global list at 0x8B4 and one collision
/// header at 0x1000 whose local goal count/offset pair is chosen by the
/// caller.
fn fixture_with_local_goals(local_count: u32, local_offset: u32, e: Endianness) -> Vec<u8> {
    let mut cur = vec![0u8; 0x1200];
    // collision header count/offset
    put_u32(&mut cur, 0x08, 1, e);
    put_u32(&mut cur, 0x0C, 0x1000, e);
    // start position and fallout pointers, into an all-zero region
    put_u32(&mut cur, 0x10, 0x89C, e);
    put_u32(&mut cur, 0x14, 0x8B0, e);
    // goal list count/offset
    put_u32(&mut cur, 0x18, 2, e);
    put_u32(&mut cur, 0x1C, 0x8B4, e);
    // goal records: only the z component of the position distinguishes them
    put_u32(&mut cur, 0x8B4 + 0x8, 0xC2E60000, e); // goal 0: z = -115.0
    put_u32(&mut cur, 0x8C8 + 0x8, 0xC2F00000, e); // goal 1: z = -120.0
    // the collision header's local goal list
    put_u32(&mut cur, 0x1000 + 0x44, local_count, e);
    put_u32(&mut cur, 0x1000 + 0x48, local_offset, e);
    cur
}

#[test]
fn round_trip_both_byte_orders() {
    // The two buffers encode the same logical stage in opposite byte
    // orders; the decoded graphs must be identical.
    let be = fixture_with_local_goals(1, 0x8B4, Endianness::BigEndian);
    let le = fixture_with_local_goals(1, 0x8B4, Endianness::LittleEndian);
    let sd_be = decode(&be, Game::SMB2, Endianness::BigEndian).unwrap();
    let sd_le = decode(&le, Game::SMB2, Endianness::LittleEndian).unwrap();
    assert_eq!(sd_be, sd_le);
    assert_eq!(sd_be.goals.len(), 2);
}

#[test]
fn round_trip_covers_sixteen_bit_fields() {
    // Rotations are 16-bit fields: write the same logical rotation in both
    // byte orders and check the decoded graphs agree on it.
    let mut be = fixture_with_local_goals(0, 0, Endianness::BigEndian);
    let mut le = fixture_with_local_goals(0, 0, Endianness::LittleEndian);
    // goal 0 rotation sits 0xC bytes into the record at 0x8B4
    let rot: [u16; 3] = [0x1000, 0x2000, 0x3000];
    for (i, v) in rot.iter().enumerate() {
        let off = 0x8B4 + 0xC + 2 * i;
        be[off..off + 2].copy_from_slice(&v.to_be_bytes());
        le[off..off + 2].copy_from_slice(&v.to_le_bytes());
    }
    let sd_be = decode(&be, Game::SMB2, Endianness::BigEndian).unwrap();
    let sd_le = decode(&le, Game::SMB2, Endianness::LittleEndian).unwrap();
    assert_eq!(sd_be, sd_le);
    assert_eq!(sd_be.goal_arena[0].rotation.x, 0x1000);
    assert_eq!(sd_be.goal_arena[0].rotation.y, 0x2000);
    assert_eq!(sd_be.goal_arena[0].rotation.z, 0x3000);
}

#[test]
fn aliasing_shares_record_identity() {
    // diff == 0 and local count <= global count: the header's goal list
    // must be the prefix of the global list, as shared records.
    let buf = fixture_with_local_goals(1, 0x8B4, Endianness::BigEndian);
    let sd = decode(&buf, Game::SMB2, Endianness::BigEndian).unwrap();
    assert_eq!(sd.goals.len(), 2);
    assert_eq!(sd.goal_arena.len(), 2);
    assert_eq!(sd.collision_headers[0].goals.len(), 1);
    let local = sd.collision_headers[0].goals[0];
    assert_eq!(local.object, sd.goals[0].object);
    assert_eq!(local.index, 0);
    // Identity, not a copy: both handles read the very same arena record.
    assert_eq!(
        sd.goal_arena[local.object],
        sd.goal_arena[sd.goals[0].object]
    );
    assert_eq!(sd.goal(&local).unwrap(), sd.goal(&sd.goals[0]).unwrap());
}

#[test]
fn aliasing_renumbers_from_zero() {
    // A local list starting one element into the global list shares the
    // second global record but carries local index 0.
    let buf = fixture_with_local_goals(1, 0x8B4 + 0x14, Endianness::BigEndian);
    let sd = decode(&buf, Game::SMB2, Endianness::BigEndian).unwrap();
    assert_eq!(sd.collision_headers[0].goals.len(), 1);
    let local = sd.collision_headers[0].goals[0];
    assert_eq!(local.object, sd.goals[1].object);
    assert_eq!(local.index, 0);
    assert_eq!(sd.goals[1].index, 1);
    assert_eq!(
        f32::from_bits(sd.goal_arena[local.object].position.z),
        -120.0
    );
}

#[test]
fn fallback_on_negative_distance() {
    // The local offset lies before the global list: the list must be
    // decoded independently and share no record with the global list.
    let buf = fixture_with_local_goals(1, 0x89C, Endianness::BigEndian);
    let sd = decode(&buf, Game::SMB2, Endianness::BigEndian).unwrap();
    assert_eq!(sd.collision_headers[0].goals.len(), 1);
    let local = sd.collision_headers[0].goals[0];
    assert_eq!(local.index, 0);
    for g in &sd.goals {
        assert_ne!(local.object, g.object);
    }
    assert_eq!(sd.goal_arena.len(), 3);
}

#[test]
fn fallback_outside_global_extent() {
    // The local offset sits exactly at the end of the global byte extent
    // (2 goals of 0x14 bytes): not an alias, so decoded independently.
    let buf = fixture_with_local_goals(1, 0x8B4 + 2 * 0x14, Endianness::BigEndian);
    let sd = decode(&buf, Game::SMB2, Endianness::BigEndian).unwrap();
    assert_eq!(sd.collision_headers[0].goals.len(), 1);
    let local = sd.collision_headers[0].goals[0];
    for g in &sd.goals {
        assert_ne!(local.object, g.object);
    }
}

#[test]
fn fallback_without_global_list() {
    // No global fallout-volume list exists, yet the header carries one:
    // four records decoded privately.
    let mut buf = fixture_with_local_goals(1, 0x8B4, Endianness::BigEndian);
    put_u32(&mut buf, 0x1000 + 0x7C, 4, Endianness::BigEndian);
    put_u32(&mut buf, 0x1000 + 0x80, 0x900, Endianness::BigEndian);
    let sd = decode(&buf, Game::SMB2, Endianness::BigEndian).unwrap();
    assert_eq!(sd.fallout_volumes.len(), 0);
    assert_eq!(sd.collision_headers[0].fallout_volumes.len(), 4);
    assert_eq!(sd.fallout_volume_arena.len(), 4);
}

#[test]
fn absent_section_is_empty_not_error() {
    // Count and offset fully zeroed: the section is absent, the decode
    // succeeds with an empty list.
    let mut buf = fixture_with_local_goals(0, 0, Endianness::BigEndian);
    put_u32(&mut buf, 0x18, 0, Endianness::BigEndian);
    put_u32(&mut buf, 0x1C, 0, Endianness::BigEndian);
    let sd = decode(&buf, Game::SMB2, Endianness::BigEndian).unwrap();
    assert_eq!(sd.goals.len(), 0);
    assert_eq!(sd.goal_arena.len(), 0);
}

#[test]
fn zero_offset_with_count_is_absent() {
    // A nonzero count with a zero offset normalizes to absent.
    let mut buf = fixture_with_local_goals(1, 0x8B4, Endianness::BigEndian);
    put_u32(&mut buf, 0x1C, 0, Endianness::BigEndian);
    let sd = decode(&buf, Game::SMB2, Endianness::BigEndian).unwrap();
    assert_eq!(sd.goals.len(), 0);
}

#[test]
fn zero_count_with_offset_is_absent() {
    let mut buf = fixture_with_local_goals(1, 0x8B4, Endianness::BigEndian);
    put_u32(&mut buf, 0x18, 0, Endianness::BigEndian);
    let sd = decode(&buf, Game::SMB2, Endianness::BigEndian).unwrap();
    assert_eq!(sd.goals.len(), 0);
}

#[test]
fn unsupported_variant_is_structural_error() {
    let buf = fixture_with_local_goals(1, 0x8B4, Endianness::BigEndian);
    let r = decode(&buf, Game::SMB1, Endianness::BigEndian);
    assert_eq!(r.unwrap_err(), DecodeError::UnsupportedVariant);
}

#[test]
fn truncated_header_is_structural_error() {
    let buf = vec![0u8; 0x10];
    let r = decode(&buf, Game::SMB2, Endianness::BigEndian);
    assert_eq!(r.unwrap_err(), DecodeError::TruncatedHeader);
}

#[test]
fn corrupt_element_is_skipped_not_fatal() {
    // Goal 0 carries an invalid type byte and is skipped; goal 1 decodes,
    // and the surviving record is re-numbered contiguously.
    let mut buf = fixture_with_local_goals(0, 0, Endianness::BigEndian);
    buf[0x8B4 + 0x12] = 0xAA;
    let sd = decode(&buf, Game::SMB2, Endianness::BigEndian).unwrap();
    assert_eq!(sd.goals.len(), 1);
    assert_eq!(sd.goals[0].index, 0);
    assert_eq!(sd.goals[0].object, 0);
    assert_eq!(
        f32::from_bits(sd.goal_arena[0].position.z),
        -120.0
    );
}

#[test]
fn goal_type_bytes() {
    let mut buf = fixture_with_local_goals(0, 0, Endianness::BigEndian);
    buf[0x8B4 + 0x12] = 0x01;
    buf[0x8C8 + 0x12] = 0x02;
    let sd = decode(&buf, Game::SMB2, Endianness::BigEndian).unwrap();
    assert_eq!(sd.goal_arena[0].goal_type, GoalType::Green);
    assert_eq!(sd.goal_arena[1].goal_type, GoalType::Red);
}

#[test]
fn banana_types_and_invalid_tag() {
    let mut buf = vec![0u8; 0x200];
    let e = Endianness::BigEndian;
    // three bananas at 0x100: Single, Bunch, and an invalid tag
    put_u32(&mut buf, 0x30, 3, e);
    put_u32(&mut buf, 0x34, 0x100, e);
    put_u32(&mut buf, 0x100 + 0xC, 0, e);
    put_u32(&mut buf, 0x110 + 0xC, 1, e);
    put_u32(&mut buf, 0x120 + 0xC, 7, e);
    let sd = decode(&buf, Game::SMB2, e).unwrap();
    assert_eq!(sd.bananas.len(), 2);
    assert_eq!(sd.banana_arena[0].banana_type, BananaType::Single);
    assert_eq!(sd.banana_arena[1].banana_type, BananaType::Bunch);
}

#[test]
fn shared_record_mutation_is_visible_through_all_views() {
    // The global list and the aliasing header expose one record: mutating
    // it through the header's handle is seen through the global handle.
    let buf = fixture_with_local_goals(2, 0x8B4, Endianness::BigEndian);
    let mut sd = decode(&buf, Game::SMB2, Endianness::BigEndian).unwrap();
    let local = sd.collision_headers[0].goals[1];
    sd.goal_arena[local.object].goal_type = GoalType::Red;
    assert_eq!(
        sd.goal_arena[sd.goals[1].object].goal_type,
        GoalType::Red
    );
}

#[test]
fn global_objs_intersection() {
    let globals = vec![
        GlobalStagedefObject::new(0, 0),
        GlobalStagedefObject::new(1, 1),
        GlobalStagedefObject::new(2, 2),
    ];
    let gco = FileOffset::CountOffset(3, 0x100);
    // one goal record (0x14 bytes) into the global extent: share the tail
    let r = StageDefReader::get_global_objs_from_local_list::<Goal>(2, 0x114, gco, &globals)
        .unwrap();
    assert_eq!(r.len(), 2);
    assert_eq!((r[0].object, r[0].index), (1, 0));
    assert_eq!((r[1].object, r[1].index), (2, 1));
    // a distance that does not divide evenly truncates to the element index
    let r = StageDefReader::get_global_objs_from_local_list::<Goal>(1, 0x115, gco, &globals)
        .unwrap();
    assert_eq!((r[0].object, r[0].index), (1, 0));
    // before, at the end of, and without a global extent: no intersection
    assert!(
        StageDefReader::get_global_objs_from_local_list::<Goal>(1, 0xFF, gco, &globals).is_none()
    );
    assert!(
        StageDefReader::get_global_objs_from_local_list::<Goal>(1, 0x13C, gco, &globals).is_none()
    );
    assert!(
        StageDefReader::get_global_objs_from_local_list::<Goal>(1, 0x100, FileOffset::Unused, &globals)
            .is_none()
    );
}

#[test]
fn declared_element_sizes() {
    assert_eq!(<Goal as StageDefObject>::get_size(), 0x14);
    assert_eq!(<Bumper as StageDefObject>::get_size(), 0x20);
    assert_eq!(<Jamabar as StageDefObject>::get_size(), 0x20);
    assert_eq!(<Banana as StageDefObject>::get_size(), 0x10);
    assert_eq!(<ConeCollisionObject as StageDefObject>::get_size(), 0x20);
    assert_eq!(<SphereCollisionObject as StageDefObject>::get_size(), 0x14);
    assert_eq!(<CylinderCollisionObject as StageDefObject>::get_size(), 0x1C);
    assert_eq!(<FalloutVolume as StageDefObject>::get_size(), 0x20);
    assert_eq!(<BackgroundModel as StageDefObject>::get_size(), 0x38);
    assert_eq!(<CollisionHeader as StageDefObject>::get_size(), 0x49C);
}

#[test]
fn model_name_resolution() {
    let mut buf = vec![0u8; 0x40];
    let e = Endianness::BigEndian;
    put_u32(&mut buf, 0x0, 0x10, e);
    buf[0x10..0x16].copy_from_slice(b"model\0");
    let name = read_model_name_from_offset(&buf, 0, e).unwrap();
    assert_eq!(name, b"model".to_vec());

    // A name pointer with no terminator before the end of the buffer
    // resolves to nothing.
    let mut buf2 = vec![0x41u8; 0x20];
    put_u32(&mut buf2, 0x0, 0x10, e);
    buf2[0]= 0x00;
    buf2[1] = 0x00;
    buf2[2] = 0x00;
    buf2[3] = 0x10;
    assert!(read_model_name_from_offset(&buf2, 0, e).is_none());
}

#[test]
fn background_model_decode() {
    let mut buf = vec![0u8; 0x300];
    let e = Endianness::BigEndian;
    // one background model at 0x100 whose name pointer targets 0x200
    put_u32(&mut buf, 0x58, 1, e);
    put_u32(&mut buf, 0x5C, 0x100, e);
    put_u32(&mut buf, 0x100 + 0x4, 0x200, e);
    put_u32(&mut buf, 0x100 + 0xC, 1.5f32.to_bits(), e);
    buf[0x200..0x205].copy_from_slice(b"tree\0");
    let sd = decode(&buf, Game::SMB2, e).unwrap();
    assert_eq!(sd.background_models.len(), 1);
    let bg = &sd.background_model_arena[sd.background_models[0].object];
    assert_eq!(bg.model_name_offset, 0x200);
    assert_eq!(f32::from_bits(bg.position.x), 1.5);
    let name = read_model_name_from_offset(&buf, 0x100 + 0x4, e).unwrap();
    assert_eq!(name, b"tree".to_vec());
}

#[test]
fn instance_decodes_big_endian_smb2() {
    let buf = fixture_with_local_goals(1, 0x8B4, Endianness::BigEndian);
    let file = FileHandleWrapper::new(buf, String::from("stage.lz.raw"), MkbFileType::StagedefType);
    let inst = StageDefInstance::new(file).unwrap();
    assert!(inst.is_active);
    assert_eq!(inst.get_filename(), "stage.lz.raw");
    assert_eq!(inst.stagedef.goals.len(), 2);

    let short = FileHandleWrapper::new(
        vec![0u8; 4],
        String::from("short.lz.raw"),
        MkbFileType::StagedefType,
    );
    match StageDefInstance::new(short) {
        Ok(_) => panic!("a four-byte buffer must not decode"),
        Err(err) => assert_eq!(err, DecodeError::TruncatedHeader),
    }
}

#[test]
fn extension_filters() {
    let (label, exts) = MkbFileType::get_rfd_extension_filter(&MkbFileType::StagedefType);
    assert_eq!(label, "Stagedef files");
    assert_eq!(exts, vec!["lz", "lz.raw"]);
    let (label, exts) = MkbFileType::get_rfd_extension_filter(&MkbFileType::WsModConfigType);
    assert_eq!(label, "Workshop Mod config files");
    assert_eq!(exts, vec!["txt"]);
}
