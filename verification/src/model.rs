//! The decoded scene graph: plain records, read once, immutable thereafter.
//!
//! Ownership is strictly tree-shaped: a [`Level`] owns its [`LevelData`],
//! which owns all rooms, meshes, tables and entities. Cross-entity
//! relationships are soft references: numeric ids into sibling sequences,
//! stored as opaque integers and never dereferenced by the decoder.
//!
//! Fields that the file stores as 32-bit floats (light falloff curves and
//! directions) are kept as their raw IEEE 754 bit patterns in `u32`, so the
//! decoder's promise stays bit-for-bit.
//!
//! Each record type containing collections has a spec twin (`Spec...`) whose
//! collection fields are `Seq`s; the twin is the record's view, and the
//! decoding contracts speak of it. Records of scalars alone are their own
//! view.

use vstd::prelude::*;

use crate::codec::{views_of, views_of_rows};

verus! {

/// Side length, in pixels, of one square texture image.
pub const IMG_DIM: usize = 256;

/// Pixel count of one texture image.
pub const NUM_PIXELS: usize = IMG_DIM * IMG_DIM;

/// Byte length of one 32-bit-pixel texture image.
pub const IMAGE32_BYTES: usize = 4 * NUM_PIXELS;

/// Byte length of one 16-bit-pixel texture image.
pub const IMAGE16_BYTES: usize = 2 * NUM_PIXELS;

/// Number of entries in the sound map table.
pub const SOUND_MAP_LEN: usize = 370;

/// Multiplier tying the `zones` table to the `boxes` table: the file stores
/// ten zone words for every box.
pub const ZONE_FACTOR: usize = 10;

#[derive(Clone, Copy, PartialEq, Eq, Debug)]
pub struct Vertex<T> {
    pub x: T,
    pub y: T,
    pub z: T,
}

impl<T> View for Vertex<T> {
    type V = Vertex<T>;

    open spec fn view(&self) -> Vertex<T> {
        *self
    }
}

#[derive(Clone, Copy, PartialEq, Eq, Debug)]
pub struct RoomVertex {
    /// Relative to the owning room.
    pub vertex: Vertex<i16>,
    pub flags: u16,
    pub color: u16,
}

impl View for RoomVertex {
    type V = RoomVertex;

    open spec fn view(&self) -> RoomVertex {
        *self
    }
}

/// A room face with `N` corners: a quad or a triangle.
#[derive(Clone, PartialEq, Eq, Debug)]
pub struct RoomFace<const N: usize> {
    /// Ids into the owning room's `vertices`; always `N` of them.
    pub vertex_ids: Vec<u16>,
    /// Bits 0-14 id into `LevelData.object_textures`, bit 15 means
    /// double-sided.
    pub texture_and_flag: u16,
}

pub struct SpecRoomFace {
    pub vertex_ids: Seq<u16>,
    pub texture_and_flag: u16,
}

impl<const N: usize> View for RoomFace<N> {
    type V = SpecRoomFace;

    open spec fn view(&self) -> SpecRoomFace {
        SpecRoomFace { vertex_ids: self.vertex_ids@, texture_and_flag: self.texture_and_flag }
    }
}

#[derive(Clone, Copy, PartialEq, Eq, Debug)]
pub struct Sprite {
    /// Id into the owning room's `vertices`.
    pub vertex_id: u16,
    /// Id into `LevelData.sprite_textures`.
    pub texture_id: u16,
}

impl View for Sprite {
    type V = Sprite;

    open spec fn view(&self) -> Sprite {
        *self
    }
}

#[derive(Clone, PartialEq, Eq, Debug)]
pub struct Portal {
    /// Id into `LevelData.rooms`.
    pub adjoining_room_id: u16,
    pub normal: Vertex<i16>,
    /// Relative to the owning room; always 4 of them.
    pub vertices: Vec<Vertex<i16>>,
}

pub struct SpecPortal {
    pub adjoining_room_id: u16,
    pub normal: Vertex<i16>,
    pub vertices: Seq<Vertex<i16>>,
}

impl View for Portal {
    type V = SpecPortal;

    open spec fn view(&self) -> SpecPortal {
        SpecPortal {
            adjoining_room_id: self.adjoining_room_id,
            normal: self.normal,
            vertices: self.vertices@,
        }
    }
}

/// One navigation cell of a room's sector grid.
#[derive(Clone, Copy, PartialEq, Eq, Debug)]
pub struct Sector {
    /// Id into `LevelData.floor_data`.
    pub floor_data_id: u16,
    pub bitfields: u16,
    /// Id into `LevelData.rooms`, 255 = none.
    pub room_below_id: u8,
    pub floor: i8,
    /// Id into `LevelData.rooms`, 255 = none.
    pub room_above_id: u8,
    pub ceiling: i8,
}

impl View for Sector {
    type V = Sector;

    open spec fn view(&self) -> Sector {
        *self
    }
}

#[derive(Clone, Copy, PartialEq, Eq, Debug)]
pub struct Light {
    /// World coordinates.
    pub pos: Vertex<i32>,
    pub r: u8,
    pub g: u8,
    pub b: u8,
    pub light_type: u8,
    pub intensity: u8,
    /// IEEE 754 single-precision bit pattern.
    pub hotspot: u32,
    /// IEEE 754 single-precision bit pattern.
    pub falloff: u32,
    /// IEEE 754 single-precision bit pattern.
    pub length: u32,
    /// IEEE 754 single-precision bit pattern.
    pub cutoff: u32,
    /// Direction; IEEE 754 single-precision bit patterns.
    pub direction: Vertex<u32>,
}

impl View for Light {
    type V = Light;

    open spec fn view(&self) -> Light {
        *self
    }
}

#[derive(Clone, Copy, PartialEq, Eq, Debug)]
pub struct RoomStaticMesh {
    /// World coordinates.
    pub pos: Vertex<i32>,
    pub rotation: u16,
    pub color: u16,
    /// Id into `LevelData.static_meshes`.
    pub static_mesh_id: u16,
}

impl View for RoomStaticMesh {
    type V = RoomStaticMesh;

    open spec fn view(&self) -> RoomStaticMesh {
        *self
    }
}

/// A spatial cell: world-anchored origin, local-coordinate geometry, portals
/// to other rooms, a sector grid, lights and placed static meshes.
#[derive(Clone, PartialEq, Eq, Debug)]
pub struct Room {
    /// World coordinates.
    pub x: i32,
    pub z: i32,
    pub y_bottom: i32,
    pub y_top: i32,
    pub vertices: Vec<RoomVertex>,
    pub quads: Vec<RoomFace<4>>,
    pub triangles: Vec<RoomFace<3>>,
    pub sprites: Vec<Sprite>,
    pub portals: Vec<Portal>,
    /// Row-major sector grid.
    pub sectors: Vec<Vec<Sector>>,
    /// ARGB.
    pub color: u32,
    pub lights: Vec<Light>,
    pub room_static_meshes: Vec<RoomStaticMesh>,
    /// Id into `LevelData.rooms`, 65535 = none.
    pub flip_room_id: u16,
    pub flags: u16,
    pub water_effect: u8,
    pub reverb: u8,
    pub flip_group: u8,
}

pub struct SpecRoom {
    pub x: i32,
    pub z: i32,
    pub y_bottom: i32,
    pub y_top: i32,
    pub vertices: Seq<RoomVertex>,
    pub quads: Seq<SpecRoomFace>,
    pub triangles: Seq<SpecRoomFace>,
    pub sprites: Seq<Sprite>,
    pub portals: Seq<SpecPortal>,
    pub sectors: Seq<Seq<Sector>>,
    pub color: u32,
    pub lights: Seq<Light>,
    pub room_static_meshes: Seq<RoomStaticMesh>,
    pub flip_room_id: u16,
    pub flags: u16,
    pub water_effect: u8,
    pub reverb: u8,
    pub flip_group: u8,
}

impl View for Room {
    type V = SpecRoom;

    open spec fn view(&self) -> SpecRoom {
        SpecRoom {
            x: self.x,
            z: self.z,
            y_bottom: self.y_bottom,
            y_top: self.y_top,
            vertices: self.vertices@,
            quads: views_of(self.quads@),
            triangles: views_of(self.triangles@),
            sprites: self.sprites@,
            portals: views_of(self.portals@),
            sectors: views_of_rows(self.sectors@),
            color: self.color,
            lights: self.lights@,
            room_static_meshes: self.room_static_meshes@,
            flip_room_id: self.flip_room_id,
            flags: self.flags,
            water_effect: self.water_effect,
            reverb: self.reverb,
            flip_group: self.flip_group,
        }
    }
}

/// The sign-discriminated union: a mesh stores either surface normals or
/// precomputed light values in the same slot, never both.
#[derive(Clone, PartialEq, Eq, Debug)]
pub enum MeshComponent {
    Normals(Vec<Vertex<i16>>),
    Lights(Vec<u16>),
}

pub enum SpecMeshComponent {
    Normals(Seq<Vertex<i16>>),
    Lights(Seq<u16>),
}

impl View for MeshComponent {
    type V = SpecMeshComponent;

    open spec fn view(&self) -> SpecMeshComponent {
        match self {
            MeshComponent::Normals(v) => SpecMeshComponent::Normals(v@),
            MeshComponent::Lights(v) => SpecMeshComponent::Lights(v@),
        }
    }
}

/// A mesh face with `N` corners: a quad or a triangle.
#[derive(Clone, PartialEq, Eq, Debug)]
pub struct MeshFace<const N: usize> {
    /// Ids into the owning mesh's `vertices`; always `N` of them.
    pub vertex_ids: Vec<u16>,
    /// Id into `LevelData.object_textures`.
    pub texture_id: u16,
    pub light_effects: u16,
}

pub struct SpecMeshFace {
    pub vertex_ids: Seq<u16>,
    pub texture_id: u16,
    pub light_effects: u16,
}

impl<const N: usize> View for MeshFace<N> {
    type V = SpecMeshFace;

    open spec fn view(&self) -> SpecMeshFace {
        SpecMeshFace {
            vertex_ids: self.vertex_ids@,
            texture_id: self.texture_id,
            light_effects: self.light_effects,
        }
    }
}

/// One renderable geometry block of the shared mesh pool.
#[derive(Clone, PartialEq, Eq, Debug)]
pub struct Mesh {
    pub center: Vertex<i16>,
    pub radius: i32,
    pub vertices: Vec<Vertex<i16>>,
    pub component: MeshComponent,
    pub quads: Vec<MeshFace<4>>,
    pub triangles: Vec<MeshFace<3>>,
}

pub struct SpecMesh {
    pub center: Vertex<i16>,
    pub radius: i32,
    pub vertices: Seq<Vertex<i16>>,
    pub component: SpecMeshComponent,
    pub quads: Seq<SpecMeshFace>,
    pub triangles: Seq<SpecMeshFace>,
}

impl View for Mesh {
    type V = SpecMesh;

    open spec fn view(&self) -> SpecMesh {
        SpecMesh {
            center: self.center,
            radius: self.radius,
            vertices: self.vertices@,
            component: self.component@,
            quads: views_of(self.quads@),
            triangles: views_of(self.triangles@),
        }
    }
}

/// One animation clip of the three-level animation state machine.
#[derive(Clone, Copy, PartialEq, Eq, Debug)]
pub struct Anim {
    /// Byte offset into `LevelData.frames`.
    pub frame_offset: u32,
    /// In 30ths of a second.
    pub frame_duration: u8,
    pub num_frames: u8,
    pub state: u16,
    /// Fixed-point.
    pub speed: u32,
    /// Fixed-point.
    pub accel: u32,
    /// Fixed-point.
    pub lateral_speed: u32,
    /// Fixed-point.
    pub lateral_accel: u32,
    pub frame_start: u16,
    pub frame_end: u16,
    pub next_anim: u16,
    pub next_frame: u16,
    pub num_state_changes: u16,
    /// Id into `LevelData.state_changes`.
    pub state_change_id: u16,
    pub num_anim_commands: u16,
    /// Id into `LevelData.anim_commands`.
    pub anim_command_id: u16,
}

impl View for Anim {
    type V = Anim;

    open spec fn view(&self) -> Anim {
        *self
    }
}

#[derive(Clone, Copy, PartialEq, Eq, Debug)]
pub struct StateChange {
    pub state: u16,
    pub num_anim_dispatches: u16,
    /// Id into `LevelData.anim_dispatches`.
    pub anim_dispatch_id: u16,
}

impl View for StateChange {
    type V = StateChange;

    open spec fn view(&self) -> StateChange {
        *self
    }
}

#[derive(Clone, Copy, PartialEq, Eq, Debug)]
pub struct AnimDispatch {
    pub low_frame: u16,
    pub high_frame: u16,
    /// Id into `LevelData.animations`.
    pub next_anim_id: u16,
    /// Id into `LevelData.frames`.
    pub next_frame_id: u16,
}

impl View for AnimDispatch {
    type V = AnimDispatch;

    open spec fn view(&self) -> AnimDispatch {
        *self
    }
}

#[derive(Clone, Copy, PartialEq, Eq, Debug)]
pub struct MeshNode {
    pub flags: u8,
    /// Relative to the parent node.
    pub x: i8,
    pub y: i8,
    pub z: i8,
}

impl View for MeshNode {
    type V = MeshNode;

    open spec fn view(&self) -> MeshNode {
        *self
    }
}

#[derive(Clone, Copy, PartialEq, Eq, Debug)]
pub struct Model {
    pub id: u32,
    pub num_meshes: u16,
    /// Id into `LevelData.mesh_pointers`.
    pub mesh_id: u16,
    /// Id into `LevelData.mesh_nodes`.
    pub mesh_node_id: u32,
    /// Byte offset into `LevelData.frames`.
    pub frame_offset: u32,
    /// Id into `LevelData.animations`, 65535 = none.
    pub anim_id: u16,
}

impl View for Model {
    type V = Model;

    open spec fn view(&self) -> Model {
        *self
    }
}

#[derive(Clone, Copy, PartialEq, Eq, Debug)]
pub struct BoundBox {
    pub x_min: i16,
    pub x_max: i16,
    pub y_min: i16,
    pub y_max: i16,
    pub z_min: i16,
    pub z_max: i16,
}

impl View for BoundBox {
    type V = BoundBox;

    open spec fn view(&self) -> BoundBox {
        *self
    }
}

#[derive(Clone, Copy, PartialEq, Eq, Debug)]
pub struct StaticMesh {
    pub id: u32,
    /// Id into `LevelData.mesh_pointers`.
    pub mesh_id: u16,
    pub visibility: BoundBox,
    pub collision: BoundBox,
    pub flags: u16,
}

impl View for StaticMesh {
    type V = StaticMesh;

    open spec fn view(&self) -> StaticMesh {
        *self
    }
}

#[derive(Clone, Copy, PartialEq, Eq, Debug)]
pub struct SpriteTexture {
    pub atlas: u16,
    pub width: u16,
    pub height: u16,
    pub left: i16,
    pub top: i16,
    pub right: i16,
    pub bottom: i16,
}

impl View for SpriteTexture {
    type V = SpriteTexture;

    open spec fn view(&self) -> SpriteTexture {
        *self
    }
}

#[derive(Clone, Copy, PartialEq, Eq, Debug)]
pub struct SpriteSequence {
    pub sprite_id: u32,
    pub neg_length: i16,
    pub offset: u16,
}

impl View for SpriteSequence {
    type V = SpriteSequence;

    open spec fn view(&self) -> SpriteSequence {
        *self
    }
}

#[derive(Clone, Copy, PartialEq, Eq, Debug)]
pub struct Camera {
    /// World coordinates.
    pub pos: Vertex<i32>,
    /// Id into `LevelData.rooms`.
    pub room_id: u16,
    pub flags: u16,
}

impl View for Camera {
    type V = Camera;

    open spec fn view(&self) -> Camera {
        *self
    }
}

#[derive(Clone, Copy, PartialEq, Eq, Debug)]
pub struct FlybyCamera {
    /// World coordinates.
    pub pos: Vertex<i32>,
    pub direction: Vertex<i32>,
    pub chain: u8,
    pub index: u8,
    pub fov: u16,
    pub roll: i16,
    pub timer: u16,
    pub speed: u16,
    pub flags: u16,
    /// Id into `LevelData.rooms`.
    pub room_id: u32,
}

impl View for FlybyCamera {
    type V = FlybyCamera;

    open spec fn view(&self) -> FlybyCamera {
        *self
    }
}

#[derive(Clone, Copy, PartialEq, Eq, Debug)]
pub struct SoundSource {
    /// World coordinates.
    pub pos: Vertex<i32>,
    pub sound_id: u16,
    pub flags: u16,
}

impl View for SoundSource {
    type V = SoundSource;

    open spec fn view(&self) -> SoundSource {
        *self
    }
}

/// One pathfinding box, measured in sectors.
#[derive(Clone, Copy, PartialEq, Eq, Debug)]
pub struct TRBox {
    pub z_min: u8,
    pub z_max: u8,
    pub x_min: u8,
    pub x_max: u8,
    pub y: i16,
    pub overlap: u16,
}

impl View for TRBox {
    type V = TRBox;

    open spec fn view(&self) -> TRBox {
        *self
    }
}

#[derive(Clone, Copy, PartialEq, Eq, Debug)]
pub struct ObjectTextureVertex {
    /// Fixed-point.
    pub x: u16,
    pub y: u16,
}

impl View for ObjectTextureVertex {
    type V = ObjectTextureVertex;

    open spec fn view(&self) -> ObjectTextureVertex {
        *self
    }
}

#[derive(Clone, PartialEq, Eq, Debug)]
pub struct ObjectTexture {
    pub blend_mode: u16,
    /// Bits 0-14 id into the images, bit 15 indicates a triangle face.
    pub atlas_and_flag: u16,
    pub flags: u16,
    /// Always 4 of them.
    pub vertices: Vec<ObjectTextureVertex>,
    pub width: u32,
    pub height: u32,
}

pub struct SpecObjectTexture {
    pub blend_mode: u16,
    pub atlas_and_flag: u16,
    pub flags: u16,
    pub vertices: Seq<ObjectTextureVertex>,
    pub width: u32,
    pub height: u32,
}

impl View for ObjectTexture {
    type V = SpecObjectTexture;

    open spec fn view(&self) -> SpecObjectTexture {
        SpecObjectTexture {
            blend_mode: self.blend_mode,
            atlas_and_flag: self.atlas_and_flag,
            flags: self.flags,
            vertices: self.vertices@,
            width: self.width,
            height: self.height,
        }
    }
}

#[derive(Clone, Copy, PartialEq, Eq, Debug)]
pub struct Entity {
    /// Matched against `Model.id`.
    pub model_id: u16,
    /// Id into `LevelData.rooms`.
    pub room_id: u16,
    /// World coordinates.
    pub pos: Vertex<i32>,
    pub angle: i16,
    /// 65535 = use mesh light.
    pub light_intensity: u16,
    pub ocb: u16,
    pub flags: u16,
}

impl View for Entity {
    type V = Entity;

    open spec fn view(&self) -> Entity {
        *self
    }
}

#[derive(Clone, Copy, PartialEq, Eq, Debug)]
pub struct Ai {
    /// Matched against `Model.id`.
    pub model_id: u16,
    /// Id into `LevelData.rooms`.
    pub room_id: u16,
    /// World coordinates.
    pub pos: Vertex<i32>,
    pub ocb: u16,
    pub flags: u16,
    pub angle: i32,
}

impl View for Ai {
    type V = Ai;

    open spec fn view(&self) -> Ai {
        *self
    }
}

#[derive(Clone, Copy, PartialEq, Eq, Debug)]
pub struct SoundDetail {
    pub volume: u8,
    /// In sectors.
    pub range: u8,
    pub chance: u8,
    pub pitch: u8,
    pub flags: u16,
}

impl View for SoundDetail {
    type V = SoundDetail;

    open spec fn view(&self) -> SoundDetail {
        *self
    }
}

/// The game world held by the main compressed block.
#[derive(Clone, PartialEq, Eq, Debug)]
pub struct LevelData {
    pub rooms: Vec<Room>,
    /// Flat shared word pool.
    pub floor_data: Vec<u16>,
    /// Shared mesh pool, parsed out of the word-counted mesh data blob.
    pub meshes: Vec<Mesh>,
    pub mesh_pointers: Vec<u32>,
    pub animations: Vec<Anim>,
    pub state_changes: Vec<StateChange>,
    pub anim_dispatches: Vec<AnimDispatch>,
    pub anim_commands: Vec<u16>,
    pub mesh_nodes: Vec<MeshNode>,
    /// Raw transform words.
    pub frames: Vec<u16>,
    pub models: Vec<Model>,
    pub static_meshes: Vec<StaticMesh>,
    /// Marker bytes; always 3 of them.
    pub spr: Vec<u8>,
    pub sprite_textures: Vec<SpriteTexture>,
    pub sprite_sequences: Vec<SpriteSequence>,
    pub cameras: Vec<Camera>,
    pub flyby_cameras: Vec<FlybyCamera>,
    pub sound_sources: Vec<SoundSource>,
    pub boxes: Vec<TRBox>,
    pub overlaps: Vec<u16>,
    /// Ten words per box; its length is `boxes.len()` times [`ZONE_FACTOR`].
    pub zones: Vec<u16>,
    pub animated_textures: Vec<u16>,
    pub animated_textures_uv_count: u8,
    /// Marker bytes; always 3 of them.
    pub tex: Vec<u8>,
    pub object_textures: Vec<ObjectTexture>,
    pub entities: Vec<Entity>,
    pub ais: Vec<Ai>,
    /// Retained verbatim as an opaque buffer.
    pub demo_data: Vec<u8>,
    /// Always [`SOUND_MAP_LEN`] entries.
    pub sound_map: Vec<u16>,
    pub sound_details: Vec<SoundDetail>,
    pub sample_indices: Vec<u32>,
    /// Reserved trailing bytes; always 6 of them.
    pub zero: Vec<u8>,
}

pub struct SpecLevelData {
    pub rooms: Seq<SpecRoom>,
    pub floor_data: Seq<u16>,
    pub meshes: Seq<SpecMesh>,
    pub mesh_pointers: Seq<u32>,
    pub animations: Seq<Anim>,
    pub state_changes: Seq<StateChange>,
    pub anim_dispatches: Seq<AnimDispatch>,
    pub anim_commands: Seq<u16>,
    pub mesh_nodes: Seq<MeshNode>,
    pub frames: Seq<u16>,
    pub models: Seq<Model>,
    pub static_meshes: Seq<StaticMesh>,
    pub spr: Seq<u8>,
    pub sprite_textures: Seq<SpriteTexture>,
    pub sprite_sequences: Seq<SpriteSequence>,
    pub cameras: Seq<Camera>,
    pub flyby_cameras: Seq<FlybyCamera>,
    pub sound_sources: Seq<SoundSource>,
    pub boxes: Seq<TRBox>,
    pub overlaps: Seq<u16>,
    pub zones: Seq<u16>,
    pub animated_textures: Seq<u16>,
    pub animated_textures_uv_count: u8,
    pub tex: Seq<u8>,
    pub object_textures: Seq<SpecObjectTexture>,
    pub entities: Seq<Entity>,
    pub ais: Seq<Ai>,
    pub demo_data: Seq<u8>,
    pub sound_map: Seq<u16>,
    pub sound_details: Seq<SoundDetail>,
    pub sample_indices: Seq<u32>,
    pub zero: Seq<u8>,
}

impl View for LevelData {
    type V = SpecLevelData;

    open spec fn view(&self) -> SpecLevelData {
        SpecLevelData {
            rooms: views_of(self.rooms@),
            floor_data: self.floor_data@,
            meshes: views_of(self.meshes@),
            mesh_pointers: self.mesh_pointers@,
            animations: self.animations@,
            state_changes: self.state_changes@,
            anim_dispatches: self.anim_dispatches@,
            anim_commands: self.anim_commands@,
            mesh_nodes: self.mesh_nodes@,
            frames: self.frames@,
            models: self.models@,
            static_meshes: self.static_meshes@,
            spr: self.spr@,
            sprite_textures: self.sprite_textures@,
            sprite_sequences: self.sprite_sequences@,
            cameras: self.cameras@,
            flyby_cameras: self.flyby_cameras@,
            sound_sources: self.sound_sources@,
            boxes: self.boxes@,
            overlaps: self.overlaps@,
            zones: self.zones@,
            animated_textures: self.animated_textures@,
            animated_textures_uv_count: self.animated_textures_uv_count,
            tex: self.tex@,
            object_textures: views_of(self.object_textures@),
            entities: self.entities@,
            ais: self.ais@,
            demo_data: self.demo_data@,
            sound_map: self.sound_map@,
            sound_details: self.sound_details@,
            sample_indices: self.sample_indices@,
            zero: self.zero@,
        }
    }
}

/// One raw audio payload: an advisory uncompressed size, then an
/// explicit-length byte buffer kept verbatim.
#[derive(Clone, PartialEq, Eq, Debug)]
pub struct Sample {
    pub uncompressed: u32,
    pub data: Vec<u8>,
}

pub struct SpecSample {
    pub uncompressed: u32,
    pub data: Seq<u8>,
}

impl View for Sample {
    type V = SpecSample;

    open spec fn view(&self) -> SpecSample {
        SpecSample { uncompressed: self.uncompressed, data: self.data@ }
    }
}

/// The root of the decoded tree: one whole level file.
#[derive(Clone, PartialEq, Eq, Debug)]
pub struct Level {
    pub version: u32,
    pub num_room_images: u16,
    pub num_obj_images: u16,
    pub num_bump_maps: u16,
    /// 32-bit-pixel images, [`IMAGE32_BYTES`] bytes each; their count is the
    /// sum of the three image-count fields.
    pub images_32: Vec<Vec<u8>>,
    /// 16-bit-pixel images, [`IMAGE16_BYTES`] bytes each; same count.
    pub images_16: Vec<Vec<u8>>,
    /// Always 2 images of [`IMAGE32_BYTES`] bytes.
    pub misc_images: Vec<Vec<u8>>,
    pub level_data: LevelData,
    pub samples: Vec<Sample>,
}

pub struct SpecLevel {
    pub version: u32,
    pub num_room_images: u16,
    pub num_obj_images: u16,
    pub num_bump_maps: u16,
    pub images_32: Seq<Seq<u8>>,
    pub images_16: Seq<Seq<u8>>,
    pub misc_images: Seq<Seq<u8>>,
    pub level_data: SpecLevelData,
    pub samples: Seq<SpecSample>,
}

impl View for Level {
    type V = SpecLevel;

    open spec fn view(&self) -> SpecLevel {
        SpecLevel {
            version: self.version,
            num_room_images: self.num_room_images,
            num_obj_images: self.num_obj_images,
            num_bump_maps: self.num_bump_maps,
            images_32: views_of(self.images_32@),
            images_16: views_of(self.images_16@),
            misc_images: views_of(self.misc_images@),
            level_data: self.level_data@,
            samples: views_of(self.samples@),
        }
    }
}

} // verus!
