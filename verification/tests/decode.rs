//! End-to-end and per-codec tests on synthetic level files.

use tr4_level::bytes::{read_i16, read_i32, read_u16, read_u32, skip};
use tr4_level::codec::{decode_grid, read_zlib_frame, Decode};
use tr4_level::error::DecodeError;
use tr4_level::level::read_level;
use tr4_level::model::{
    Anim, Light, MeshComponent, RoomFace, Sample, Sector, IMAGE16_BYTES, IMAGE32_BYTES,
};
use tr4_level::varsize::{decode_mesh_pool, read_level_data};

fn push_u16(v: &mut Vec<u8>, x: u16) {
    v.extend_from_slice(&x.to_le_bytes());
}

fn push_u32(v: &mut Vec<u8>, x: u32) {
    v.extend_from_slice(&x.to_le_bytes());
}

fn push_i16(v: &mut Vec<u8>, x: i16) {
    v.extend_from_slice(&x.to_le_bytes());
}

fn push_i32(v: &mut Vec<u8>, x: i32) {
    v.extend_from_slice(&x.to_le_bytes());
}

/// One compressed section: uncompressed size, compressed size, zlib bytes.
fn push_zlib_block(v: &mut Vec<u8>, payload: &[u8]) {
    let compressed = miniz_oxide::deflate::compress_to_vec_zlib(payload, 1);
    push_u32(v, payload.len() as u32);
    push_u32(v, compressed.len() as u32);
    v.extend_from_slice(&compressed);
}

fn push_sector(v: &mut Vec<u8>, floor_data_id: u16) {
    push_u16(v, floor_data_id);
    push_u16(v, 0xBEEF);
    v.push(255);
    v.push(0);
    v.push(255);
    v.push(0);
}

/// The game world with everything empty but `n_boxes` pathfinding boxes (and
/// the zone words they require) and the fixed-size tables.
fn level_data_bytes(n_boxes: u16) -> Vec<u8> {
    let mut v = Vec::new();
    push_u32(&mut v, 0); // unused leading word
    push_u16(&mut v, 0); // rooms
    push_u32(&mut v, 0); // floor_data
    push_u32(&mut v, 0); // mesh pool word count
    push_u32(&mut v, 0); // mesh_pointers
    push_u32(&mut v, 0); // animations
    push_u32(&mut v, 0); // state_changes
    push_u32(&mut v, 0); // anim_dispatches
    push_u32(&mut v, 0); // anim_commands
    push_u32(&mut v, 0); // mesh_nodes
    push_u32(&mut v, 0); // frames
    push_u32(&mut v, 0); // models
    push_u32(&mut v, 0); // static_meshes
    v.extend_from_slice(b"SPR");
    push_u32(&mut v, 0); // sprite_textures
    push_u32(&mut v, 0); // sprite_sequences
    push_u32(&mut v, 0); // cameras
    push_u32(&mut v, 0); // flyby_cameras
    push_u32(&mut v, 0); // sound_sources
    push_u32(&mut v, n_boxes as u32);
    for i in 0..n_boxes {
        v.push(0);
        v.push(1);
        v.push(0);
        v.push(1);
        push_i16(&mut v, -2);
        push_u16(&mut v, i);
    }
    push_u32(&mut v, 0); // overlaps
    for i in 0..(n_boxes as usize * 10) {
        push_u16(&mut v, i as u16); // zones: ten words per box, no prefix
    }
    push_u32(&mut v, 0); // animated_textures
    v.push(0); // animated_textures_uv_count
    v.extend_from_slice(b"TEX");
    push_u32(&mut v, 0); // object_textures
    push_u32(&mut v, 0); // entities
    push_u32(&mut v, 0); // ais
    push_u16(&mut v, 0); // demo_data
    for _ in 0..370 {
        push_u16(&mut v, 0); // sound_map
    }
    push_u32(&mut v, 0); // sound_details
    push_u32(&mut v, 0); // sample_indices
    v.extend_from_slice(&[0u8; 6]); // reserved trailing bytes
    v
}

/// A whole synthetic level file: version, image counts 2 + 1 + 0, the three
/// compressed image blocks, the compressed game world, and one audio sample.
fn level_bytes() -> Vec<u8> {
    let mut v = Vec::new();
    push_u32(&mut v, 0x00345254);
    push_u16(&mut v, 2); // room images
    push_u16(&mut v, 1); // object images
    push_u16(&mut v, 0); // bump maps
    let mut images_32 = Vec::new();
    for k in 0..3u8 {
        let mut img = vec![0u8; IMAGE32_BYTES];
        img[0] = 0xA0 + k;
        images_32.extend_from_slice(&img);
    }
    push_zlib_block(&mut v, &images_32);
    let mut images_16 = Vec::new();
    for k in 0..3u8 {
        let mut img = vec![0u8; IMAGE16_BYTES];
        img[0] = 0xB0 + k;
        images_16.extend_from_slice(&img);
    }
    push_zlib_block(&mut v, &images_16);
    let misc = vec![7u8; 2 * IMAGE32_BYTES];
    push_zlib_block(&mut v, &misc);
    push_zlib_block(&mut v, &level_data_bytes(0));
    push_u32(&mut v, 1); // one sample
    push_u32(&mut v, 5); // its advisory uncompressed size
    push_u32(&mut v, 3); // its byte count
    v.extend_from_slice(&[1, 2, 3]);
    v
}

#[test]
fn read_u16_is_little_endian() {
    let v: Vec<u8> = vec![0x34, 0x12, 0x78, 0x56];
    assert_eq!(read_u16(&v, 0).unwrap(), (0x1234, 2));
    assert_eq!(read_u16(&v, 2).unwrap(), (0x5678, 4));
}

#[test]
fn read_u32_is_little_endian() {
    let v: Vec<u8> = vec![0x78, 0x56, 0x34, 0x12];
    assert_eq!(read_u32(&v, 0).unwrap(), (0x12345678, 4));
}

#[test]
fn signed_reads_are_twos_complement() {
    let v: Vec<u8> = vec![0xFF, 0xFF, 0xFE, 0xFF, 0xFF, 0xFF];
    assert_eq!(read_i16(&v, 0).unwrap(), (-1, 2));
    assert_eq!(read_i32(&v, 2).unwrap(), (-2, 6));
}

#[test]
fn scalar_read_past_end_is_eof() {
    let v: Vec<u8> = vec![1, 2, 3];
    assert_eq!(read_u32(&v, 0).unwrap_err(), DecodeError::UnexpectedEof);
    assert_eq!(read_u16(&v, 2).unwrap_err(), DecodeError::UnexpectedEof);
}

#[test]
fn skip_advances_or_fails() {
    let v: Vec<u8> = vec![0; 4];
    assert_eq!(skip(&v, 0, 4).unwrap(), 4);
    assert_eq!(skip(&v, 1, 4).unwrap_err(), DecodeError::UnexpectedEof);
}

#[test]
fn union_positive_count_decodes_normals() {
    let mut v = Vec::new();
    push_i16(&mut v, 3);
    for k in 0..3i16 {
        push_i16(&mut v, k);
        push_i16(&mut v, k + 10);
        push_i16(&mut v, k - 10);
    }
    let (c, p) = MeshComponent::decode(&v, 0).unwrap();
    assert_eq!(p, 2 + 3 * 6);
    match c {
        MeshComponent::Normals(n) => {
            assert_eq!(n.len(), 3);
            assert_eq!(n[1].x, 1);
            assert_eq!(n[1].y, 11);
            assert_eq!(n[1].z, -9);
        },
        MeshComponent::Lights(_) => panic!("positive count must decode normals"),
    }
}

#[test]
fn union_negative_count_decodes_lights() {
    let mut v = Vec::new();
    push_i16(&mut v, -3);
    push_u16(&mut v, 100);
    push_u16(&mut v, 200);
    push_u16(&mut v, 300);
    let (c, p) = MeshComponent::decode(&v, 0).unwrap();
    assert_eq!(p, 8);
    match c {
        MeshComponent::Lights(l) => assert_eq!(l, vec![100, 200, 300]),
        MeshComponent::Normals(_) => panic!("negative count must decode lights"),
    }
}

#[test]
fn union_zero_count_takes_the_lights_branch() {
    let mut v = Vec::new();
    push_i16(&mut v, 0);
    let (c, p) = MeshComponent::decode(&v, 0).unwrap();
    assert_eq!(p, 2);
    match c {
        MeshComponent::Lights(l) => assert_eq!(l.len(), 0),
        MeshComponent::Normals(_) => panic!("zero count must decode zero lights"),
    }
}

#[test]
fn grid_is_rows_of_columns_in_row_major_order() {
    let mut v = Vec::new();
    push_u16(&mut v, 3); // rows
    push_u16(&mut v, 2); // columns
    for k in 0..6u16 {
        push_sector(&mut v, k);
    }
    let (g, p) = decode_grid::<Sector>(&v, 0).unwrap();
    assert_eq!(p, v.len());
    assert_eq!(g.len(), 3);
    for (i, row) in g.iter().enumerate() {
        assert_eq!(row.len(), 2);
        for (j, s) in row.iter().enumerate() {
            assert_eq!(s.floor_data_id, (i * 2 + j) as u16);
        }
    }
}

#[test]
fn grid_short_row_is_eof() {
    let mut v = Vec::new();
    push_u16(&mut v, 3);
    push_u16(&mut v, 2);
    for k in 0..5u16 {
        push_sector(&mut v, k);
    }
    assert_eq!(decode_grid::<Sector>(&v, 0).unwrap_err(), DecodeError::UnexpectedEof);
}

#[test]
fn mesh_pool_decodes_one_mesh() {
    let mut v = Vec::new();
    push_u32(&mut v, 14); // 28 bytes of mesh data, in 16-bit words
    push_i16(&mut v, 1);
    push_i16(&mut v, 2);
    push_i16(&mut v, 3); // center
    push_i32(&mut v, 100); // radius
    push_u16(&mut v, 1); // one vertex
    push_i16(&mut v, 4);
    push_i16(&mut v, 5);
    push_i16(&mut v, 6);
    push_i16(&mut v, -2); // two light values
    push_u16(&mut v, 7);
    push_u16(&mut v, 8);
    push_u16(&mut v, 0); // quads
    push_u16(&mut v, 0); // triangles
    let (meshes, p) = decode_mesh_pool(&v, 0).unwrap();
    assert_eq!(p, v.len());
    assert_eq!(meshes.len(), 1);
    let m = &meshes[0];
    assert_eq!((m.center.x, m.center.y, m.center.z), (1, 2, 3));
    assert_eq!(m.radius, 100);
    assert_eq!(m.vertices.len(), 1);
    match &m.component {
        MeshComponent::Lights(l) => assert_eq!(l, &vec![7, 8]),
        MeshComponent::Normals(_) => panic!("expected lights"),
    }
    assert_eq!(m.quads.len(), 0);
    assert_eq!(m.triangles.len(), 0);
}

#[test]
fn zones_hold_ten_words_per_box() {
    let v = level_data_bytes(4);
    let (d, p) = read_level_data(&v, 0).unwrap();
    assert_eq!(p, v.len());
    assert_eq!(d.boxes.len(), 4);
    assert_eq!(d.zones.len(), 40);
    assert_eq!(d.zones[39], 39);
    assert_eq!(d.sound_map.len(), 370);
    assert_eq!(d.spr, b"SPR".to_vec());
    assert_eq!(d.tex, b"TEX".to_vec());
}

#[test]
fn level_data_truncated_anywhere_is_eof() {
    let v = level_data_bytes(2);
    let cuts = [0usize, 3, 4, 5, 10, 50, v.len() / 2, v.len() - 7, v.len() - 1];
    for cut in cuts {
        let short: Vec<u8> = v[..cut].to_vec();
        assert_eq!(read_level_data(&short, 0).unwrap_err(), DecodeError::UnexpectedEof);
    }
}

#[test]
fn full_level_decodes_with_summed_image_count() {
    let v = level_bytes();
    let level = read_level(&v).unwrap();
    assert_eq!(level.version, 0x00345254);
    assert_eq!(level.num_room_images, 2);
    assert_eq!(level.num_obj_images, 1);
    assert_eq!(level.num_bump_maps, 0);
    assert_eq!(level.images_32.len(), 3);
    assert_eq!(level.images_16.len(), 3);
    assert_eq!(level.misc_images.len(), 2);
    for (k, img) in level.images_32.iter().enumerate() {
        assert_eq!(img.len(), IMAGE32_BYTES);
        assert_eq!(img[0], 0xA0 + k as u8);
    }
    for (k, img) in level.images_16.iter().enumerate() {
        assert_eq!(img.len(), IMAGE16_BYTES);
        assert_eq!(img[0], 0xB0 + k as u8);
    }
    assert_eq!(level.misc_images[1][17], 7);
    assert_eq!(level.level_data.rooms.len(), 0);
    assert_eq!(level.level_data.sound_map.len(), 370);
    assert_eq!(level.samples.len(), 1);
    assert_eq!(level.samples[0].uncompressed, 5);
    assert_eq!(level.samples[0].data, vec![1, 2, 3]);
}

#[test]
fn decoding_is_deterministic() {
    let v = level_bytes();
    let a = read_level(&v).unwrap();
    let b = read_level(&v).unwrap();
    assert_eq!(a, b);
}

#[test]
fn corrupt_compressed_block_fails_without_losing_the_boundary() {
    let v = level_bytes();
    let frame_before = read_zlib_frame(&v, 10).unwrap();
    let mut corrupt = v.clone();
    // Flip bytes inside the first block's compressed payload, leaving the
    // section framing (both length words) untouched.
    for k in 0..8 {
        corrupt[22 + k] ^= 0xFF;
    }
    assert_eq!(read_level(&corrupt).unwrap_err(), DecodeError::DecompressionError);
    let frame_after = read_zlib_frame(&corrupt, 10).unwrap();
    assert_eq!(frame_before.1, frame_after.1);
}

#[test]
fn truncation_at_any_boundary_is_eof() {
    let v = level_bytes();
    let cuts = [0usize, 4, 9, 10, 13, 17, v.len() / 3, v.len() - 4, v.len() - 1];
    for cut in cuts {
        let short: Vec<u8> = v[..cut].to_vec();
        assert_eq!(
            read_level(&short).unwrap_err(),
            DecodeError::UnexpectedEof,
            "cut at {cut}"
        );
    }
}

#[test]
fn sample_record_is_size_then_counted_bytes() {
    let mut v = Vec::new();
    push_u32(&mut v, 99);
    push_u32(&mut v, 4);
    v.extend_from_slice(&[9, 8, 7, 6]);
    let (s, p) = Sample::decode(&v, 0).unwrap();
    assert_eq!(p, 12);
    assert_eq!(s.uncompressed, 99);
    assert_eq!(s.data, vec![9, 8, 7, 6]);
}

#[test]
fn anim_fields_sit_at_their_declared_offsets() {
    let mut v = Vec::new();
    push_u32(&mut v, 0x11223344); // frame_offset
    v.push(30); // frame_duration
    v.push(5); // num_frames
    push_u16(&mut v, 2); // state
    push_u32(&mut v, 100); // speed
    push_u32(&mut v, 200); // accel
    push_u32(&mut v, 300); // lateral_speed
    push_u32(&mut v, 400); // lateral_accel
    push_u16(&mut v, 10); // frame_start
    push_u16(&mut v, 20); // frame_end
    push_u16(&mut v, 1); // next_anim
    push_u16(&mut v, 11); // next_frame
    push_u16(&mut v, 2); // num_state_changes
    push_u16(&mut v, 3); // state_change_id
    push_u16(&mut v, 4); // num_anim_commands
    push_u16(&mut v, 5); // anim_command_id
    let (a, p) = Anim::decode(&v, 0).unwrap();
    assert_eq!(p, 40);
    assert_eq!(a.frame_offset, 0x11223344);
    assert_eq!(a.frame_duration, 30);
    assert_eq!(a.num_frames, 5);
    assert_eq!(a.state, 2);
    assert_eq!(a.lateral_accel, 400);
    assert_eq!(a.frame_end, 20);
    assert_eq!(a.anim_command_id, 5);
}

#[test]
fn light_keeps_float_bit_patterns() {
    let mut v = Vec::new();
    push_i32(&mut v, 1000);
    push_i32(&mut v, -2000);
    push_i32(&mut v, 3000); // position
    v.extend_from_slice(&[255, 128, 0, 1]); // r, g, b, light_type
    v.push(0xCC); // reserved byte, skipped
    v.push(200); // intensity
    v.extend_from_slice(&1.5f32.to_le_bytes()); // hotspot
    v.extend_from_slice(&2.5f32.to_le_bytes()); // falloff
    v.extend_from_slice(&0.0f32.to_le_bytes()); // length
    v.extend_from_slice(&(-1.0f32).to_le_bytes()); // cutoff
    v.extend_from_slice(&0.5f32.to_le_bytes());
    v.extend_from_slice(&(-0.5f32).to_le_bytes());
    v.extend_from_slice(&1.0f32.to_le_bytes()); // direction
    let (l, p) = Light::decode(&v, 0).unwrap();
    assert_eq!(p, 46);
    assert_eq!((l.pos.x, l.pos.y, l.pos.z), (1000, -2000, 3000));
    assert_eq!((l.r, l.g, l.b), (255, 128, 0));
    assert_eq!(l.intensity, 200);
    assert_eq!(l.hotspot, 1.5f32.to_bits());
    assert_eq!(l.falloff, 2.5f32.to_bits());
    assert_eq!(l.cutoff, (-1.0f32).to_bits());
    assert_eq!(l.direction.y, (-0.5f32).to_bits());
}

#[test]
fn room_face_reads_its_corner_count() {
    let mut v = Vec::new();
    for k in 0..4u16 {
        push_u16(&mut v, k);
    }
    push_u16(&mut v, 0x8001);
    let (q, p) = <RoomFace<4> as Decode>::decode(&v, 0).unwrap();
    assert_eq!(p, 10);
    assert_eq!(q.vertex_ids, vec![0, 1, 2, 3]);
    assert_eq!(q.texture_and_flag, 0x8001);
    let (t, p3) = <RoomFace<3> as Decode>::decode(&v, 0).unwrap();
    assert_eq!(p3, 8);
    assert_eq!(t.vertex_ids, vec![0, 1, 2]);
}

#[test]
fn room_decodes_geometry_grid_and_tail() {
    let mut v = Vec::new();
    push_i32(&mut v, 1024); // x
    push_i32(&mut v, 2048); // z
    push_i32(&mut v, 0); // y_bottom
    push_i32(&mut v, -256); // y_top
    push_u32(&mut v, 0xDEAD_BEEF); // data word count, skipped
    push_u16(&mut v, 1); // one vertex
    push_i16(&mut v, 10);
    push_i16(&mut v, 20);
    push_i16(&mut v, 30);
    push_u16(&mut v, 0x5555); // lighting word, skipped
    push_u16(&mut v, 3); // flags
    push_u16(&mut v, 4); // color
    push_u16(&mut v, 0); // quads
    push_u16(&mut v, 0); // triangles
    push_u16(&mut v, 0); // sprites
    push_u16(&mut v, 0); // portals
    push_u16(&mut v, 3); // sector rows
    push_u16(&mut v, 2); // sector columns
    for k in 0..6u16 {
        push_sector(&mut v, k);
    }
    push_u32(&mut v, 0xAABBCCDD); // room color
    push_u16(&mut v, 0); // lights
    push_u16(&mut v, 0); // room static meshes
    push_u16(&mut v, 65535); // flip room
    push_u16(&mut v, 8); // flags
    v.push(1); // water effect
    v.push(2); // reverb
    v.push(3); // flip group
    let (room, p) = <tr4_level::model::Room as Decode>::decode(&v, 0).unwrap();
    assert_eq!(p, v.len());
    assert_eq!((room.x, room.z, room.y_bottom, room.y_top), (1024, 2048, 0, -256));
    assert_eq!(room.vertices.len(), 1);
    assert_eq!(room.vertices[0].vertex.y, 20);
    assert_eq!(room.vertices[0].flags, 3);
    assert_eq!(room.vertices[0].color, 4);
    assert_eq!(room.sectors.len(), 3);
    assert_eq!(room.sectors[2].len(), 2);
    assert_eq!(room.sectors[2][1].floor_data_id, 5);
    assert_eq!(room.color, 0xAABBCCDD);
    assert_eq!(room.flip_room_id, 65535);
    assert_eq!(room.flags, 8);
    assert_eq!((room.water_effect, room.reverb, room.flip_group), (1, 2, 3));
}

#[test]
fn object_texture_skips_reserved_words_before_extent() {
    let mut v = Vec::new();
    push_u16(&mut v, 1); // blend mode
    push_u16(&mut v, 0x8002); // atlas and flag
    push_u16(&mut v, 5); // flags
    for k in 0..4u16 {
        push_u16(&mut v, 100 + k);
        push_u16(&mut v, 200 + k);
    }
    push_u32(&mut v, 0x1111_1111); // reserved, skipped
    push_u32(&mut v, 0x2222_2222); // reserved, skipped
    push_u32(&mut v, 64); // width
    push_u32(&mut v, 32); // height
    let (t, p) = <tr4_level::model::ObjectTexture as Decode>::decode(&v, 0).unwrap();
    assert_eq!(p, 38);
    assert_eq!(t.blend_mode, 1);
    assert_eq!(t.atlas_and_flag, 0x8002);
    assert_eq!(t.vertices.len(), 4);
    assert_eq!(t.vertices[3].x, 103);
    assert_eq!(t.vertices[3].y, 203);
    assert_eq!(t.width, 64);
    assert_eq!(t.height, 32);
}

#[test]
fn sprite_texture_skips_position_bytes() {
    let mut v = Vec::new();
    push_u16(&mut v, 9); // atlas
    push_u16(&mut v, 0x7777); // position bytes, skipped
    push_u16(&mut v, 100); // width
    push_u16(&mut v, 50); // height
    push_i16(&mut v, -1); // left
    push_i16(&mut v, -2); // top
    push_i16(&mut v, 3); // right
    push_i16(&mut v, 4); // bottom
    let (t, p) = <tr4_level::model::SpriteTexture as Decode>::decode(&v, 0).unwrap();
    assert_eq!(p, 16);
    assert_eq!(t.atlas, 9);
    assert_eq!(t.width, 100);
    assert_eq!(t.height, 50);
    assert_eq!((t.left, t.top, t.right, t.bottom), (-1, -2, 3, 4));
}

#[test]
fn byte_prefixed_list_uses_one_byte_count() {
    let v: Vec<u8> = vec![3, 0x10, 0x20, 0x30, 0x40];
    let (l, p) = tr4_level::codec::decode_list_p8::<u8>(&v, 0).unwrap();
    assert_eq!(p, 4);
    assert_eq!(l, vec![0x10, 0x20, 0x30]);
}

#[test]
fn portal_carries_four_corner_vertices() {
    let mut v = Vec::new();
    push_u16(&mut v, 6); // adjoining room
    push_i16(&mut v, 0);
    push_i16(&mut v, -1);
    push_i16(&mut v, 0); // normal
    for k in 0..4i16 {
        push_i16(&mut v, k);
        push_i16(&mut v, k * 10);
        push_i16(&mut v, -k);
    }
    let (portal, p) = <tr4_level::model::Portal as Decode>::decode(&v, 0).unwrap();
    assert_eq!(p, 32);
    assert_eq!(portal.adjoining_room_id, 6);
    assert_eq!(portal.normal.y, -1);
    assert_eq!(portal.vertices.len(), 4);
    assert_eq!(portal.vertices[3].y, 30);
    assert_eq!(portal.vertices[3].z, -3);
}
