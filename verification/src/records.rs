//! Record assembly for the fixed-layout record types.
//!
//! Each record decodes its fields strictly in declared order; a fixed-layout
//! record's meaning is a formula over the bytes at literal offsets from its
//! start, guarded by one bound on its total size. Reserved or padding bytes
//! (skips) are consumed but exposed to no caller.

use vstd::prelude::*;

use crate::bytes::{
    as_i16, as_i32, as_i8, get_i16, get_i32, get_i8, get_u16, get_u32, get_u8, le16, le32,
};
use crate::codec::{decode_list, spec_decode_list, views_of, Decode};
use crate::error::DecodeError;
use crate::model::{
    Ai, Anim, AnimDispatch, BoundBox, Camera, Entity, FlybyCamera, Light, MeshFace, MeshNode,
    Model, ObjectTexture, ObjectTextureVertex, Portal, RoomFace, RoomStaticMesh, RoomVertex,
    Sector, SoundDetail, SoundSource, SpecMeshFace, SpecObjectTexture, SpecPortal, SpecRoomFace,
    Sprite, SpriteSequence, SpriteTexture, StateChange, StaticMesh, TRBox, Vertex,
};

verus! {

/// The three signed 16-bit coordinates at `pos`.
pub open spec fn spec_v16(b: Seq<u8>, pos: int) -> Vertex<i16> {
    Vertex {
        x: as_i16(le16(b, pos)),
        y: as_i16(le16(b, pos + 2)),
        z: as_i16(le16(b, pos + 4)),
    }
}

/// The three signed 32-bit coordinates at `pos`.
pub open spec fn spec_v32(b: Seq<u8>, pos: int) -> Vertex<i32> {
    Vertex {
        x: as_i32(le32(b, pos)),
        y: as_i32(le32(b, pos + 4)),
        z: as_i32(le32(b, pos + 8)),
    }
}

/// The three 32-bit float bit patterns at `pos`.
pub open spec fn spec_vf(b: Seq<u8>, pos: int) -> Vertex<u32> {
    Vertex { x: le32(b, pos), y: le32(b, pos + 4), z: le32(b, pos + 8) }
}

pub fn get_v16(b: &Vec<u8>, pos: usize) -> (r: Vertex<i16>)
    requires
        pos + 6 <= b@.len(),
    ensures
        r == spec_v16(b@, pos as int),
{
    let _len: usize = b.len();
    Vertex { x: get_i16(b, pos), y: get_i16(b, pos + 2), z: get_i16(b, pos + 4) }
}

pub fn get_v32(b: &Vec<u8>, pos: usize) -> (r: Vertex<i32>)
    requires
        pos + 12 <= b@.len(),
    ensures
        r == spec_v32(b@, pos as int),
{
    let _len: usize = b.len();
    Vertex { x: get_i32(b, pos), y: get_i32(b, pos + 4), z: get_i32(b, pos + 8) }
}

pub fn get_vf(b: &Vec<u8>, pos: usize) -> (r: Vertex<u32>)
    requires
        pos + 12 <= b@.len(),
    ensures
        r == spec_vf(b@, pos as int),
{
    let _len: usize = b.len();
    Vertex { x: get_u32(b, pos), y: get_u32(b, pos + 4), z: get_u32(b, pos + 8) }
}

/// The six signed 16-bit bound-box extents at `pos`.
pub open spec fn spec_bbox(b: Seq<u8>, pos: int) -> BoundBox {
    BoundBox {
        x_min: as_i16(le16(b, pos)),
        x_max: as_i16(le16(b, pos + 2)),
        y_min: as_i16(le16(b, pos + 4)),
        y_max: as_i16(le16(b, pos + 6)),
        z_min: as_i16(le16(b, pos + 8)),
        z_max: as_i16(le16(b, pos + 10)),
    }
}

pub fn get_bbox(b: &Vec<u8>, pos: usize) -> (r: BoundBox)
    requires
        pos + 12 <= b@.len(),
    ensures
        r == spec_bbox(b@, pos as int),
{
    let _len: usize = b.len();
    BoundBox {
        x_min: get_i16(b, pos),
        x_max: get_i16(b, pos + 2),
        y_min: get_i16(b, pos + 4),
        y_max: get_i16(b, pos + 6),
        z_min: get_i16(b, pos + 8),
        z_max: get_i16(b, pos + 10),
    }
}

impl Decode for Vertex<i16> {
    open spec fn spec_decode(b: Seq<u8>, pos: int) -> Option<(Vertex<i16>, int)> {
        if pos + 6 <= b.len() {
            Some((spec_v16(b, pos), pos + 6))
        } else {
            None
        }
    }

    fn decode(b: &Vec<u8>, pos: usize) -> (r: Result<(Vertex<i16>, usize), DecodeError>) {
        if b.len() - pos < 6 {
            return Err(DecodeError::UnexpectedEof);
        }
        Ok((get_v16(b, pos), pos + 6))
    }
}

impl Decode for Vertex<i32> {
    open spec fn spec_decode(b: Seq<u8>, pos: int) -> Option<(Vertex<i32>, int)> {
        if pos + 12 <= b.len() {
            Some((spec_v32(b, pos), pos + 12))
        } else {
            None
        }
    }

    fn decode(b: &Vec<u8>, pos: usize) -> (r: Result<(Vertex<i32>, usize), DecodeError>) {
        if b.len() - pos < 12 {
            return Err(DecodeError::UnexpectedEof);
        }
        Ok((get_v32(b, pos), pos + 12))
    }
}

impl Decode for Vertex<u32> {
    open spec fn spec_decode(b: Seq<u8>, pos: int) -> Option<(Vertex<u32>, int)> {
        if pos + 12 <= b.len() {
            Some((spec_vf(b, pos), pos + 12))
        } else {
            None
        }
    }

    fn decode(b: &Vec<u8>, pos: usize) -> (r: Result<(Vertex<u32>, usize), DecodeError>) {
        if b.len() - pos < 12 {
            return Err(DecodeError::UnexpectedEof);
        }
        Ok((get_vf(b, pos), pos + 12))
    }
}

impl Decode for RoomVertex {
    open spec fn spec_decode(b: Seq<u8>, pos: int) -> Option<(RoomVertex, int)> {
        if pos + 12 <= b.len() {
            Some(
                (
                    RoomVertex {
                        vertex: spec_v16(b, pos),
                        flags: le16(b, pos + 8),
                        color: le16(b, pos + 10),
                    },
                    pos + 12,
                ),
            )
        } else {
            None
        }
    }

    fn decode(b: &Vec<u8>, pos: usize) -> (r: Result<(RoomVertex, usize), DecodeError>) {
        if b.len() - pos < 12 {
            return Err(DecodeError::UnexpectedEof);
        }
        Ok(
            (
                RoomVertex {
                    vertex: get_v16(b, pos),
                    flags: get_u16(b, pos + 8),
                    color: get_u16(b, pos + 10),
                },
                pos + 12,
            ),
        )
    }
}

impl Decode for Sprite {
    open spec fn spec_decode(b: Seq<u8>, pos: int) -> Option<(Sprite, int)> {
        if pos + 4 <= b.len() {
            Some((Sprite { vertex_id: le16(b, pos), texture_id: le16(b, pos + 2) }, pos + 4))
        } else {
            None
        }
    }

    fn decode(b: &Vec<u8>, pos: usize) -> (r: Result<(Sprite, usize), DecodeError>) {
        if b.len() - pos < 4 {
            return Err(DecodeError::UnexpectedEof);
        }
        Ok((Sprite { vertex_id: get_u16(b, pos), texture_id: get_u16(b, pos + 2) }, pos + 4))
    }
}

impl Decode for Sector {
    open spec fn spec_decode(b: Seq<u8>, pos: int) -> Option<(Sector, int)> {
        if pos + 8 <= b.len() {
            Some(
                (
                    Sector {
                        floor_data_id: le16(b, pos),
                        bitfields: le16(b, pos + 2),
                        room_below_id: b[pos + 4],
                        floor: as_i8(b[pos + 5]),
                        room_above_id: b[pos + 6],
                        ceiling: as_i8(b[pos + 7]),
                    },
                    pos + 8,
                ),
            )
        } else {
            None
        }
    }

    fn decode(b: &Vec<u8>, pos: usize) -> (r: Result<(Sector, usize), DecodeError>) {
        if b.len() - pos < 8 {
            return Err(DecodeError::UnexpectedEof);
        }
        Ok(
            (
                Sector {
                    floor_data_id: get_u16(b, pos),
                    bitfields: get_u16(b, pos + 2),
                    room_below_id: get_u8(b, pos + 4),
                    floor: get_i8(b, pos + 5),
                    room_above_id: get_u8(b, pos + 6),
                    ceiling: get_i8(b, pos + 7),
                },
                pos + 8,
            ),
        )
    }
}

impl Decode for Light {
    open spec fn spec_decode(b: Seq<u8>, pos: int) -> Option<(Light, int)> {
        if pos + 46 <= b.len() {
            Some(
                (
                    Light {
                        pos: spec_v32(b, pos),
                        r: b[pos + 12],
                        g: b[pos + 13],
                        b: b[pos + 14],
                        light_type: b[pos + 15],
                        intensity: b[pos + 17],
                        hotspot: le32(b, pos + 18),
                        falloff: le32(b, pos + 22),
                        length: le32(b, pos + 26),
                        cutoff: le32(b, pos + 30),
                        direction: spec_vf(b, pos + 34),
                    },
                    pos + 46,
                ),
            )
        } else {
            None
        }
    }

    fn decode(b: &Vec<u8>, pos: usize) -> (r: Result<(Light, usize), DecodeError>) {
        if b.len() - pos < 46 {
            return Err(DecodeError::UnexpectedEof);
        }
        Ok(
            (
                Light {
                    pos: get_v32(b, pos),
                    r: get_u8(b, pos + 12),
                    g: get_u8(b, pos + 13),
                    b: get_u8(b, pos + 14),
                    light_type: get_u8(b, pos + 15),
                    intensity: get_u8(b, pos + 17),
                    hotspot: get_u32(b, pos + 18),
                    falloff: get_u32(b, pos + 22),
                    length: get_u32(b, pos + 26),
                    cutoff: get_u32(b, pos + 30),
                    direction: get_vf(b, pos + 34),
                },
                pos + 46,
            ),
        )
    }
}

impl Decode for RoomStaticMesh {
    open spec fn spec_decode(b: Seq<u8>, pos: int) -> Option<(RoomStaticMesh, int)> {
        if pos + 20 <= b.len() {
            Some(
                (
                    RoomStaticMesh {
                        pos: spec_v32(b, pos),
                        rotation: le16(b, pos + 12),
                        color: le16(b, pos + 14),
                        static_mesh_id: le16(b, pos + 18),
                    },
                    pos + 20,
                ),
            )
        } else {
            None
        }
    }

    fn decode(b: &Vec<u8>, pos: usize) -> (r: Result<(RoomStaticMesh, usize), DecodeError>) {
        if b.len() - pos < 20 {
            return Err(DecodeError::UnexpectedEof);
        }
        Ok(
            (
                RoomStaticMesh {
                    pos: get_v32(b, pos),
                    rotation: get_u16(b, pos + 12),
                    color: get_u16(b, pos + 14),
                    static_mesh_id: get_u16(b, pos + 18),
                },
                pos + 20,
            ),
        )
    }
}

impl Decode for Anim {
    open spec fn spec_decode(b: Seq<u8>, pos: int) -> Option<(Anim, int)> {
        if pos + 40 <= b.len() {
            Some(
                (
                    Anim {
                        frame_offset: le32(b, pos),
                        frame_duration: b[pos + 4],
                        num_frames: b[pos + 5],
                        state: le16(b, pos + 6),
                        speed: le32(b, pos + 8),
                        accel: le32(b, pos + 12),
                        lateral_speed: le32(b, pos + 16),
                        lateral_accel: le32(b, pos + 20),
                        frame_start: le16(b, pos + 24),
                        frame_end: le16(b, pos + 26),
                        next_anim: le16(b, pos + 28),
                        next_frame: le16(b, pos + 30),
                        num_state_changes: le16(b, pos + 32),
                        state_change_id: le16(b, pos + 34),
                        num_anim_commands: le16(b, pos + 36),
                        anim_command_id: le16(b, pos + 38),
                    },
                    pos + 40,
                ),
            )
        } else {
            None
        }
    }

    fn decode(b: &Vec<u8>, pos: usize) -> (r: Result<(Anim, usize), DecodeError>) {
        if b.len() - pos < 40 {
            return Err(DecodeError::UnexpectedEof);
        }
        Ok(
            (
                Anim {
                    frame_offset: get_u32(b, pos),
                    frame_duration: get_u8(b, pos + 4),
                    num_frames: get_u8(b, pos + 5),
                    state: get_u16(b, pos + 6),
                    speed: get_u32(b, pos + 8),
                    accel: get_u32(b, pos + 12),
                    lateral_speed: get_u32(b, pos + 16),
                    lateral_accel: get_u32(b, pos + 20),
                    frame_start: get_u16(b, pos + 24),
                    frame_end: get_u16(b, pos + 26),
                    next_anim: get_u16(b, pos + 28),
                    next_frame: get_u16(b, pos + 30),
                    num_state_changes: get_u16(b, pos + 32),
                    state_change_id: get_u16(b, pos + 34),
                    num_anim_commands: get_u16(b, pos + 36),
                    anim_command_id: get_u16(b, pos + 38),
                },
                pos + 40,
            ),
        )
    }
}

impl Decode for StateChange {
    open spec fn spec_decode(b: Seq<u8>, pos: int) -> Option<(StateChange, int)> {
        if pos + 6 <= b.len() {
            Some(
                (
                    StateChange {
                        state: le16(b, pos),
                        num_anim_dispatches: le16(b, pos + 2),
                        anim_dispatch_id: le16(b, pos + 4),
                    },
                    pos + 6,
                ),
            )
        } else {
            None
        }
    }

    fn decode(b: &Vec<u8>, pos: usize) -> (r: Result<(StateChange, usize), DecodeError>) {
        if b.len() - pos < 6 {
            return Err(DecodeError::UnexpectedEof);
        }
        Ok(
            (
                StateChange {
                    state: get_u16(b, pos),
                    num_anim_dispatches: get_u16(b, pos + 2),
                    anim_dispatch_id: get_u16(b, pos + 4),
                },
                pos + 6,
            ),
        )
    }
}

impl Decode for AnimDispatch {
    open spec fn spec_decode(b: Seq<u8>, pos: int) -> Option<(AnimDispatch, int)> {
        if pos + 8 <= b.len() {
            Some(
                (
                    AnimDispatch {
                        low_frame: le16(b, pos),
                        high_frame: le16(b, pos + 2),
                        next_anim_id: le16(b, pos + 4),
                        next_frame_id: le16(b, pos + 6),
                    },
                    pos + 8,
                ),
            )
        } else {
            None
        }
    }

    fn decode(b: &Vec<u8>, pos: usize) -> (r: Result<(AnimDispatch, usize), DecodeError>) {
        if b.len() - pos < 8 {
            return Err(DecodeError::UnexpectedEof);
        }
        Ok(
            (
                AnimDispatch {
                    low_frame: get_u16(b, pos),
                    high_frame: get_u16(b, pos + 2),
                    next_anim_id: get_u16(b, pos + 4),
                    next_frame_id: get_u16(b, pos + 6),
                },
                pos + 8,
            ),
        )
    }
}

impl Decode for MeshNode {
    open spec fn spec_decode(b: Seq<u8>, pos: int) -> Option<(MeshNode, int)> {
        if pos + 4 <= b.len() {
            Some(
                (
                    MeshNode {
                        flags: b[pos],
                        x: as_i8(b[pos + 1]),
                        y: as_i8(b[pos + 2]),
                        z: as_i8(b[pos + 3]),
                    },
                    pos + 4,
                ),
            )
        } else {
            None
        }
    }

    fn decode(b: &Vec<u8>, pos: usize) -> (r: Result<(MeshNode, usize), DecodeError>) {
        if b.len() - pos < 4 {
            return Err(DecodeError::UnexpectedEof);
        }
        Ok(
            (
                MeshNode {
                    flags: get_u8(b, pos),
                    x: get_i8(b, pos + 1),
                    y: get_i8(b, pos + 2),
                    z: get_i8(b, pos + 3),
                },
                pos + 4,
            ),
        )
    }
}

impl Decode for Model {
    open spec fn spec_decode(b: Seq<u8>, pos: int) -> Option<(Model, int)> {
        if pos + 18 <= b.len() {
            Some(
                (
                    Model {
                        id: le32(b, pos),
                        num_meshes: le16(b, pos + 4),
                        mesh_id: le16(b, pos + 6),
                        mesh_node_id: le32(b, pos + 8),
                        frame_offset: le32(b, pos + 12),
                        anim_id: le16(b, pos + 16),
                    },
                    pos + 18,
                ),
            )
        } else {
            None
        }
    }

    fn decode(b: &Vec<u8>, pos: usize) -> (r: Result<(Model, usize), DecodeError>) {
        if b.len() - pos < 18 {
            return Err(DecodeError::UnexpectedEof);
        }
        Ok(
            (
                Model {
                    id: get_u32(b, pos),
                    num_meshes: get_u16(b, pos + 4),
                    mesh_id: get_u16(b, pos + 6),
                    mesh_node_id: get_u32(b, pos + 8),
                    frame_offset: get_u32(b, pos + 12),
                    anim_id: get_u16(b, pos + 16),
                },
                pos + 18,
            ),
        )
    }
}

impl Decode for BoundBox {
    open spec fn spec_decode(b: Seq<u8>, pos: int) -> Option<(BoundBox, int)> {
        if pos + 12 <= b.len() {
            Some((spec_bbox(b, pos), pos + 12))
        } else {
            None
        }
    }

    fn decode(b: &Vec<u8>, pos: usize) -> (r: Result<(BoundBox, usize), DecodeError>) {
        if b.len() - pos < 12 {
            return Err(DecodeError::UnexpectedEof);
        }
        Ok((get_bbox(b, pos), pos + 12))
    }
}

impl Decode for StaticMesh {
    open spec fn spec_decode(b: Seq<u8>, pos: int) -> Option<(StaticMesh, int)> {
        if pos + 32 <= b.len() {
            Some(
                (
                    StaticMesh {
                        id: le32(b, pos),
                        mesh_id: le16(b, pos + 4),
                        visibility: spec_bbox(b, pos + 6),
                        collision: spec_bbox(b, pos + 18),
                        flags: le16(b, pos + 30),
                    },
                    pos + 32,
                ),
            )
        } else {
            None
        }
    }

    fn decode(b: &Vec<u8>, pos: usize) -> (r: Result<(StaticMesh, usize), DecodeError>) {
        if b.len() - pos < 32 {
            return Err(DecodeError::UnexpectedEof);
        }
        Ok(
            (
                StaticMesh {
                    id: get_u32(b, pos),
                    mesh_id: get_u16(b, pos + 4),
                    visibility: get_bbox(b, pos + 6),
                    collision: get_bbox(b, pos + 18),
                    flags: get_u16(b, pos + 30),
                },
                pos + 32,
            ),
        )
    }
}

impl Decode for SpriteTexture {
    open spec fn spec_decode(b: Seq<u8>, pos: int) -> Option<(SpriteTexture, int)> {
        if pos + 16 <= b.len() {
            Some(
                (
                    SpriteTexture {
                        atlas: le16(b, pos),
                        width: le16(b, pos + 4),
                        height: le16(b, pos + 6),
                        left: as_i16(le16(b, pos + 8)),
                        top: as_i16(le16(b, pos + 10)),
                        right: as_i16(le16(b, pos + 12)),
                        bottom: as_i16(le16(b, pos + 14)),
                    },
                    pos + 16,
                ),
            )
        } else {
            None
        }
    }

    fn decode(b: &Vec<u8>, pos: usize) -> (r: Result<(SpriteTexture, usize), DecodeError>) {
        if b.len() - pos < 16 {
            return Err(DecodeError::UnexpectedEof);
        }
        Ok(
            (
                SpriteTexture {
                    atlas: get_u16(b, pos),
                    width: get_u16(b, pos + 4),
                    height: get_u16(b, pos + 6),
                    left: get_i16(b, pos + 8),
                    top: get_i16(b, pos + 10),
                    right: get_i16(b, pos + 12),
                    bottom: get_i16(b, pos + 14),
                },
                pos + 16,
            ),
        )
    }
}

impl Decode for SpriteSequence {
    open spec fn spec_decode(b: Seq<u8>, pos: int) -> Option<(SpriteSequence, int)> {
        if pos + 8 <= b.len() {
            Some(
                (
                    SpriteSequence {
                        sprite_id: le32(b, pos),
                        neg_length: as_i16(le16(b, pos + 4)),
                        offset: le16(b, pos + 6),
                    },
                    pos + 8,
                ),
            )
        } else {
            None
        }
    }

    fn decode(b: &Vec<u8>, pos: usize) -> (r: Result<(SpriteSequence, usize), DecodeError>) {
        if b.len() - pos < 8 {
            return Err(DecodeError::UnexpectedEof);
        }
        Ok(
            (
                SpriteSequence {
                    sprite_id: get_u32(b, pos),
                    neg_length: get_i16(b, pos + 4),
                    offset: get_u16(b, pos + 6),
                },
                pos + 8,
            ),
        )
    }
}

impl Decode for Camera {
    open spec fn spec_decode(b: Seq<u8>, pos: int) -> Option<(Camera, int)> {
        if pos + 16 <= b.len() {
            Some(
                (
                    Camera {
                        pos: spec_v32(b, pos),
                        room_id: le16(b, pos + 12),
                        flags: le16(b, pos + 14),
                    },
                    pos + 16,
                ),
            )
        } else {
            None
        }
    }

    fn decode(b: &Vec<u8>, pos: usize) -> (r: Result<(Camera, usize), DecodeError>) {
        if b.len() - pos < 16 {
            return Err(DecodeError::UnexpectedEof);
        }
        Ok(
            (
                Camera {
                    pos: get_v32(b, pos),
                    room_id: get_u16(b, pos + 12),
                    flags: get_u16(b, pos + 14),
                },
                pos + 16,
            ),
        )
    }
}

impl Decode for FlybyCamera {
    open spec fn spec_decode(b: Seq<u8>, pos: int) -> Option<(FlybyCamera, int)> {
        if pos + 40 <= b.len() {
            Some(
                (
                    FlybyCamera {
                        pos: spec_v32(b, pos),
                        direction: spec_v32(b, pos + 12),
                        chain: b[pos + 24],
                        index: b[pos + 25],
                        fov: le16(b, pos + 26),
                        roll: as_i16(le16(b, pos + 28)),
                        timer: le16(b, pos + 30),
                        speed: le16(b, pos + 32),
                        flags: le16(b, pos + 34),
                        room_id: le32(b, pos + 36),
                    },
                    pos + 40,
                ),
            )
        } else {
            None
        }
    }

    fn decode(b: &Vec<u8>, pos: usize) -> (r: Result<(FlybyCamera, usize), DecodeError>) {
        if b.len() - pos < 40 {
            return Err(DecodeError::UnexpectedEof);
        }
        Ok(
            (
                FlybyCamera {
                    pos: get_v32(b, pos),
                    direction: get_v32(b, pos + 12),
                    chain: get_u8(b, pos + 24),
                    index: get_u8(b, pos + 25),
                    fov: get_u16(b, pos + 26),
                    roll: get_i16(b, pos + 28),
                    timer: get_u16(b, pos + 30),
                    speed: get_u16(b, pos + 32),
                    flags: get_u16(b, pos + 34),
                    room_id: get_u32(b, pos + 36),
                },
                pos + 40,
            ),
        )
    }
}

impl Decode for SoundSource {
    open spec fn spec_decode(b: Seq<u8>, pos: int) -> Option<(SoundSource, int)> {
        if pos + 16 <= b.len() {
            Some(
                (
                    SoundSource {
                        pos: spec_v32(b, pos),
                        sound_id: le16(b, pos + 12),
                        flags: le16(b, pos + 14),
                    },
                    pos + 16,
                ),
            )
        } else {
            None
        }
    }

    fn decode(b: &Vec<u8>, pos: usize) -> (r: Result<(SoundSource, usize), DecodeError>) {
        if b.len() - pos < 16 {
            return Err(DecodeError::UnexpectedEof);
        }
        Ok(
            (
                SoundSource {
                    pos: get_v32(b, pos),
                    sound_id: get_u16(b, pos + 12),
                    flags: get_u16(b, pos + 14),
                },
                pos + 16,
            ),
        )
    }
}

impl Decode for TRBox {
    open spec fn spec_decode(b: Seq<u8>, pos: int) -> Option<(TRBox, int)> {
        if pos + 8 <= b.len() {
            Some(
                (
                    TRBox {
                        z_min: b[pos],
                        z_max: b[pos + 1],
                        x_min: b[pos + 2],
                        x_max: b[pos + 3],
                        y: as_i16(le16(b, pos + 4)),
                        overlap: le16(b, pos + 6),
                    },
                    pos + 8,
                ),
            )
        } else {
            None
        }
    }

    fn decode(b: &Vec<u8>, pos: usize) -> (r: Result<(TRBox, usize), DecodeError>) {
        if b.len() - pos < 8 {
            return Err(DecodeError::UnexpectedEof);
        }
        Ok(
            (
                TRBox {
                    z_min: get_u8(b, pos),
                    z_max: get_u8(b, pos + 1),
                    x_min: get_u8(b, pos + 2),
                    x_max: get_u8(b, pos + 3),
                    y: get_i16(b, pos + 4),
                    overlap: get_u16(b, pos + 6),
                },
                pos + 8,
            ),
        )
    }
}

impl Decode for ObjectTextureVertex {
    open spec fn spec_decode(b: Seq<u8>, pos: int) -> Option<(ObjectTextureVertex, int)> {
        if pos + 4 <= b.len() {
            Some((ObjectTextureVertex { x: le16(b, pos), y: le16(b, pos + 2) }, pos + 4))
        } else {
            None
        }
    }

    fn decode(b: &Vec<u8>, pos: usize) -> (r: Result<(ObjectTextureVertex, usize), DecodeError>) {
        if b.len() - pos < 4 {
            return Err(DecodeError::UnexpectedEof);
        }
        Ok((ObjectTextureVertex { x: get_u16(b, pos), y: get_u16(b, pos + 2) }, pos + 4))
    }
}

impl Decode for Entity {
    open spec fn spec_decode(b: Seq<u8>, pos: int) -> Option<(Entity, int)> {
        if pos + 24 <= b.len() {
            Some(
                (
                    Entity {
                        model_id: le16(b, pos),
                        room_id: le16(b, pos + 2),
                        pos: spec_v32(b, pos + 4),
                        angle: as_i16(le16(b, pos + 16)),
                        light_intensity: le16(b, pos + 18),
                        ocb: le16(b, pos + 20),
                        flags: le16(b, pos + 22),
                    },
                    pos + 24,
                ),
            )
        } else {
            None
        }
    }

    fn decode(b: &Vec<u8>, pos: usize) -> (r: Result<(Entity, usize), DecodeError>) {
        if b.len() - pos < 24 {
            return Err(DecodeError::UnexpectedEof);
        }
        Ok(
            (
                Entity {
                    model_id: get_u16(b, pos),
                    room_id: get_u16(b, pos + 2),
                    pos: get_v32(b, pos + 4),
                    angle: get_i16(b, pos + 16),
                    light_intensity: get_u16(b, pos + 18),
                    ocb: get_u16(b, pos + 20),
                    flags: get_u16(b, pos + 22),
                },
                pos + 24,
            ),
        )
    }
}

impl Decode for Ai {
    open spec fn spec_decode(b: Seq<u8>, pos: int) -> Option<(Ai, int)> {
        if pos + 24 <= b.len() {
            Some(
                (
                    Ai {
                        model_id: le16(b, pos),
                        room_id: le16(b, pos + 2),
                        pos: spec_v32(b, pos + 4),
                        ocb: le16(b, pos + 16),
                        flags: le16(b, pos + 18),
                        angle: as_i32(le32(b, pos + 20)),
                    },
                    pos + 24,
                ),
            )
        } else {
            None
        }
    }

    fn decode(b: &Vec<u8>, pos: usize) -> (r: Result<(Ai, usize), DecodeError>) {
        if b.len() - pos < 24 {
            return Err(DecodeError::UnexpectedEof);
        }
        Ok(
            (
                Ai {
                    model_id: get_u16(b, pos),
                    room_id: get_u16(b, pos + 2),
                    pos: get_v32(b, pos + 4),
                    ocb: get_u16(b, pos + 16),
                    flags: get_u16(b, pos + 18),
                    angle: get_i32(b, pos + 20),
                },
                pos + 24,
            ),
        )
    }
}

impl Decode for SoundDetail {
    open spec fn spec_decode(b: Seq<u8>, pos: int) -> Option<(SoundDetail, int)> {
        if pos + 8 <= b.len() {
            Some(
                (
                    SoundDetail {
                        volume: b[pos + 2],
                        range: b[pos + 3],
                        chance: b[pos + 4],
                        pitch: b[pos + 5],
                        flags: le16(b, pos + 6),
                    },
                    pos + 8,
                ),
            )
        } else {
            None
        }
    }

    fn decode(b: &Vec<u8>, pos: usize) -> (r: Result<(SoundDetail, usize), DecodeError>) {
        if b.len() - pos < 8 {
            return Err(DecodeError::UnexpectedEof);
        }
        Ok(
            (
                SoundDetail {
                    volume: get_u8(b, pos + 2),
                    range: get_u8(b, pos + 3),
                    chance: get_u8(b, pos + 4),
                    pitch: get_u8(b, pos + 5),
                    flags: get_u16(b, pos + 6),
                },
                pos + 8,
            ),
        )
    }
}

impl Decode for Portal {
    open spec fn spec_decode(b: Seq<u8>, pos: int) -> Option<(SpecPortal, int)> {
        if pos + 32 <= b.len() {
            Some(
                (
                    SpecPortal {
                        adjoining_room_id: le16(b, pos),
                        normal: spec_v16(b, pos + 2),
                        vertices: seq![
                            spec_v16(b, pos + 8),
                            spec_v16(b, pos + 14),
                            spec_v16(b, pos + 20),
                            spec_v16(b, pos + 26),
                        ],
                    },
                    pos + 32,
                ),
            )
        } else {
            None
        }
    }

    fn decode(b: &Vec<u8>, pos: usize) -> (r: Result<(Portal, usize), DecodeError>) {
        if b.len() - pos < 32 {
            return Err(DecodeError::UnexpectedEof);
        }
        let mut vertices: Vec<Vertex<i16>> = Vec::new();
        vertices.push(get_v16(b, pos + 8));
        vertices.push(get_v16(b, pos + 14));
        vertices.push(get_v16(b, pos + 20));
        vertices.push(get_v16(b, pos + 26));
        proof {
            assert(vertices@ =~= seq![
                spec_v16(b@, pos + 8),
                spec_v16(b@, pos + 14),
                spec_v16(b@, pos + 20),
                spec_v16(b@, pos + 26),
            ]);
        }
        Ok(
            (
                Portal {
                    adjoining_room_id: get_u16(b, pos),
                    normal: get_v16(b, pos + 2),
                    vertices,
                },
                pos + 32,
            ),
        )
    }
}

impl Decode for ObjectTexture {
    open spec fn spec_decode(b: Seq<u8>, pos: int) -> Option<(SpecObjectTexture, int)> {
        if pos + 38 <= b.len() {
            Some(
                (
                    SpecObjectTexture {
                        blend_mode: le16(b, pos),
                        atlas_and_flag: le16(b, pos + 2),
                        flags: le16(b, pos + 4),
                        vertices: seq![
                            ObjectTextureVertex { x: le16(b, pos + 6), y: le16(b, pos + 8) },
                            ObjectTextureVertex { x: le16(b, pos + 10), y: le16(b, pos + 12) },
                            ObjectTextureVertex { x: le16(b, pos + 14), y: le16(b, pos + 16) },
                            ObjectTextureVertex { x: le16(b, pos + 18), y: le16(b, pos + 20) },
                        ],
                        width: le32(b, pos + 30),
                        height: le32(b, pos + 34),
                    },
                    pos + 38,
                ),
            )
        } else {
            None
        }
    }

    fn decode(b: &Vec<u8>, pos: usize) -> (r: Result<(ObjectTexture, usize), DecodeError>) {
        if b.len() - pos < 38 {
            return Err(DecodeError::UnexpectedEof);
        }
        let mut vertices: Vec<ObjectTextureVertex> = Vec::new();
        vertices.push(ObjectTextureVertex { x: get_u16(b, pos + 6), y: get_u16(b, pos + 8) });
        vertices.push(ObjectTextureVertex { x: get_u16(b, pos + 10), y: get_u16(b, pos + 12) });
        vertices.push(ObjectTextureVertex { x: get_u16(b, pos + 14), y: get_u16(b, pos + 16) });
        vertices.push(ObjectTextureVertex { x: get_u16(b, pos + 18), y: get_u16(b, pos + 20) });
        proof {
            assert(vertices@ =~= seq![
                ObjectTextureVertex { x: le16(b@, pos + 6), y: le16(b@, pos + 8) },
                ObjectTextureVertex { x: le16(b@, pos + 10), y: le16(b@, pos + 12) },
                ObjectTextureVertex { x: le16(b@, pos + 14), y: le16(b@, pos + 16) },
                ObjectTextureVertex { x: le16(b@, pos + 18), y: le16(b@, pos + 20) },
            ]);
        }
        Ok(
            (
                ObjectTexture {
                    blend_mode: get_u16(b, pos),
                    atlas_and_flag: get_u16(b, pos + 2),
                    flags: get_u16(b, pos + 4),
                    vertices,
                    width: get_u32(b, pos + 30),
                    height: get_u32(b, pos + 34),
                },
                pos + 38,
            ),
        )
    }
}

impl<const N: usize> Decode for RoomFace<N> {
    open spec fn spec_decode(b: Seq<u8>, pos: int) -> Option<(SpecRoomFace, int)> {
        match spec_decode_list::<u16>(b, pos, N as nat) {
            None => None,
            Some(l) => if l.1 + 2 <= b.len() {
                Some((SpecRoomFace { vertex_ids: l.0, texture_and_flag: le16(b, l.1) }, l.1 + 2))
            } else {
                None
            },
        }
    }

    fn decode(b: &Vec<u8>, pos: usize) -> (r: Result<(RoomFace<N>, usize), DecodeError>) {
        let (vertex_ids, p) = match decode_list::<u16>(b, pos, N) {
            Ok(x) => x,
            Err(e) => { return Err(e) },
        };
        if b.len() - p < 2 {
            return Err(DecodeError::UnexpectedEof);
        }
        proof {
            assert(views_of(vertex_ids@) =~= vertex_ids@);
        }
        Ok((RoomFace { vertex_ids, texture_and_flag: get_u16(b, p) }, p + 2))
    }
}

impl<const N: usize> Decode for MeshFace<N> {
    open spec fn spec_decode(b: Seq<u8>, pos: int) -> Option<(SpecMeshFace, int)> {
        match spec_decode_list::<u16>(b, pos, N as nat) {
            None => None,
            Some(l) => if l.1 + 4 <= b.len() {
                Some(
                    (
                        SpecMeshFace {
                            vertex_ids: l.0,
                            texture_id: le16(b, l.1),
                            light_effects: le16(b, l.1 + 2),
                        },
                        l.1 + 4,
                    ),
                )
            } else {
                None
            },
        }
    }

    fn decode(b: &Vec<u8>, pos: usize) -> (r: Result<(MeshFace<N>, usize), DecodeError>) {
        let (vertex_ids, p) = match decode_list::<u16>(b, pos, N) {
            Ok(x) => x,
            Err(e) => { return Err(e) },
        };
        if b.len() - p < 4 {
            return Err(DecodeError::UnexpectedEof);
        }
        proof {
            assert(views_of(vertex_ids@) =~= vertex_ids@);
        }
        Ok(
            (
                MeshFace {
                    vertex_ids,
                    texture_id: get_u16(b, p),
                    light_effects: get_u16(b, p + 2),
                },
                p + 4,
            ),
        )
    }
}

} // verus!
