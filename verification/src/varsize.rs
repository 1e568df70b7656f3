//! Record assembly for the variable-layout records: the sign-discriminated
//! union, meshes and the word-counted mesh pool, rooms, audio samples, and
//! the whole game world ([`LevelData`]).
//!
//! Fields decode strictly in declared order: later fields' counts (the sum of
//! earlier scalars, a saved length times a constant, a two-dimensional pair)
//! read values produced by earlier fields, so no field may be decoded out of
//! order.

use vstd::prelude::*;

use crate::bytes::{as_i16, as_i32, le16, le32, copy_range, get_i32, get_u16, get_u32, get_u8,
    read_i16};
use crate::codec::{
    decode_grid, decode_list, decode_list_p16, decode_list_p32, lemma_list_len,
    lemma_short_read_fatal_u16, spec_decode_grid, spec_decode_list, spec_decode_list_p16,
    spec_decode_list_p32, views_of, Decode,
};
use crate::error::DecodeError;
use crate::model::{
    LevelData, Mesh, MeshComponent, MeshFace, Room, RoomFace, Sample, SpecLevelData, SpecMesh,
    SpecMeshComponent, SpecRoom, SpecSample, Vertex, SOUND_MAP_LEN, ZONE_FACTOR,
};

verus! {

impl Decode for MeshComponent {
    /// One signed 16-bit count: strictly positive means that many normal
    /// vectors, zero or negative means that many light values. Exactly one
    /// branch decodes; the sign itself is discarded.
    open spec fn spec_decode(b: Seq<u8>, pos: int) -> Option<(SpecMeshComponent, int)> {
        if pos + 2 <= b.len() {
            let num = as_i16(le16(b, pos));
            if num > 0 {
                match spec_decode_list::<Vertex<i16>>(b, pos + 2, num as nat) {
                    None => None,
                    Some(l) => Some((SpecMeshComponent::Normals(l.0), l.1)),
                }
            } else {
                match spec_decode_list::<u16>(b, pos + 2, (-(num as int)) as nat) {
                    None => None,
                    Some(l) => Some((SpecMeshComponent::Lights(l.0), l.1)),
                }
            }
        } else {
            None
        }
    }

    fn decode(b: &Vec<u8>, pos: usize) -> (r: Result<(MeshComponent, usize), DecodeError>) {
        let (num, p) = match read_i16(b, pos) {
            Ok(x) => x,
            Err(e) => { return Err(e) },
        };
        if num > 0 {
            match decode_list::<Vertex<i16>>(b, p, num as usize) {
                Ok((v, q)) => {
                    proof {
                        assert(views_of(v@) =~= v@);
                    }
                    Ok((MeshComponent::Normals(v), q))
                },
                Err(e) => Err(e),
            }
        } else {
            let n: usize = (-(num as i32)) as usize;
            match decode_list::<u16>(b, p, n) {
                Ok((v, q)) => {
                    proof {
                        assert(views_of(v@) =~= v@);
                    }
                    Ok((MeshComponent::Lights(v), q))
                },
                Err(e) => Err(e),
            }
        }
    }
}

/// The union is total over the sign domain: a strictly positive count yields
/// exactly that many normals and no lights; a zero or negative count yields
/// exactly its magnitude in lights and no normals.
pub proof fn lemma_union_totality(b: Seq<u8>, pos: int, c: SpecMeshComponent, p: int)
    requires
        MeshComponent::spec_decode(b, pos) == Some((c, p)),
    ensures
        as_i16(le16(b, pos)) > 0 ==> (c matches SpecMeshComponent::Normals(v) && v.len() == as_i16(
            le16(b, pos),
        )),
        as_i16(le16(b, pos)) <= 0 ==> (c matches SpecMeshComponent::Lights(v) && v.len() == -(
        as_i16(le16(b, pos)) as int)),
{
    let num = as_i16(le16(b, pos));
    if num > 0 {
        match spec_decode_list::<Vertex<i16>>(b, pos + 2, num as nat) {
            None => {
                assert(false);
            },
            Some(l) => {
                lemma_list_len::<Vertex<i16>>(b, pos + 2, num as nat, l.0, l.1);
            },
        }
    } else {
        match spec_decode_list::<u16>(b, pos + 2, (-(num as int)) as nat) {
            None => {
                assert(false);
            },
            Some(l) => {
                lemma_list_len::<u16>(b, pos + 2, (-(num as int)) as nat, l.0, l.1);
            },
        }
    }
}

impl Decode for Mesh {
    open spec fn spec_decode(b: Seq<u8>, pos: int) -> Option<(SpecMesh, int)> {
        if pos + 10 <= b.len() {
            match spec_decode_list_p16::<Vertex<i16>>(b, pos + 10) {
                None => None,
                Some(v) => match MeshComponent::spec_decode(b, v.1) {
                    None => None,
                    Some(c) => match spec_decode_list_p16::<MeshFace<4>>(b, c.1) {
                        None => None,
                        Some(q) => match spec_decode_list_p16::<MeshFace<3>>(b, q.1) {
                            None => None,
                            Some(t) => Some(
                                (
                                    SpecMesh {
                                        center: crate::records::spec_v16(b, pos),
                                        radius: as_i32(le32(b, pos + 6)),
                                        vertices: v.0,
                                        component: c.0,
                                        quads: q.0,
                                        triangles: t.0,
                                    },
                                    t.1,
                                ),
                            ),
                        },
                    },
                },
            }
        } else {
            None
        }
    }

    fn decode(b: &Vec<u8>, pos: usize) -> (r: Result<(Mesh, usize), DecodeError>) {
        if b.len() - pos < 10 {
            return Err(DecodeError::UnexpectedEof);
        }
        let center = crate::records::get_v16(b, pos);
        let radius = get_i32(b, pos + 6);
        let (vertices, p1) = match decode_list_p16::<Vertex<i16>>(b, pos + 10) {
            Ok(x) => x,
            Err(e) => { return Err(e) },
        };
        let (component, p2) = match MeshComponent::decode(b, p1) {
            Ok(x) => x,
            Err(e) => { return Err(e) },
        };
        let (quads, p3) = match decode_list_p16::<MeshFace<4>>(b, p2) {
            Ok(x) => x,
            Err(e) => { return Err(e) },
        };
        let (triangles, p4) = match decode_list_p16::<MeshFace<3>>(b, p3) {
            Ok(x) => x,
            Err(e) => { return Err(e) },
        };
        proof {
            assert(views_of(vertices@) =~= vertices@);
        }
        Ok((Mesh { center, radius, vertices, component, quads, triangles }, p4))
    }
}

/// The meaning of the mesh records packed back to back between `cur` and
/// `end`, each followed by padding up to the next four-byte boundary counted
/// from `start`. Decoding ends exactly at `end`; a mesh that overruns `end`,
/// or consumes nothing, fails the whole pool.
pub open spec fn spec_decode_meshes(b: Seq<u8>, start: int, cur: int, end: int) -> Option<
    (Seq<SpecMesh>, int),
>
    decreases end - cur,
{
    if cur >= end {
        Some((Seq::empty(), end))
    } else {
        match Mesh::spec_decode(b, cur) {
            None => None,
            Some(mp) => if mp.1 <= cur || mp.1 > end {
                None
            } else {
                let pad = if (mp.1 - start) % 4 == 0 {
                    0int
                } else {
                    4 - ((mp.1 - start) % 4)
                };
                let next = if mp.1 + pad > end {
                    end
                } else {
                    mp.1 + pad
                };
                match spec_decode_meshes(b, start, next, end) {
                    None => None,
                    Some(sq) => Some((seq![mp.0] + sq.0, sq.1)),
                }
            },
        }
    }
}

/// The mesh pool: a 32-bit count of 16-bit words, then that many words
/// holding the mesh records.
pub open spec fn spec_decode_mesh_pool(b: Seq<u8>, pos: int) -> Option<(Seq<SpecMesh>, int)> {
    if pos + 4 <= b.len() && pos + 4 + 2 * le32(b, pos) <= b.len() {
        spec_decode_meshes(b, pos + 4, pos + 4, pos + 4 + 2 * le32(b, pos))
    } else {
        None
    }
}

/// Decodes the mesh pool: reads the word count, then mesh records back to
/// back until the counted words are used up.
#[verifier::rlimit(100)]
pub fn decode_mesh_pool(b: &Vec<u8>, pos: usize) -> (r: Result<(Vec<Mesh>, usize), DecodeError>)
    requires
        pos <= b@.len(),
    ensures
        match r {
            Ok(vp) => spec_decode_mesh_pool(b@, pos as int) == Some(
                (views_of(vp.0@), vp.1 as int),
            ) && pos <= vp.1 <= b@.len(),
            Err(e) => spec_decode_mesh_pool(b@, pos as int) is None && e
                == DecodeError::UnexpectedEof,
        },
{
    let len: usize = b.len();
    if len - pos < 4 {
        return Err(DecodeError::UnexpectedEof);
    }
    let words = get_u32(b, pos);
    let start: usize = pos + 4;
    if (len - start) / 2 < words as usize {
        proof {
            assert(pos + 4 + 2 * le32(b@, pos as int) > b@.len());
        }
        return Err(DecodeError::UnexpectedEof);
    }
    let end: usize = start + (words as usize) * 2;
    let mut out: Vec<Mesh> = Vec::new();
    let mut cur: usize = start;
    proof {
        assert(views_of(out@) =~= Seq::<SpecMesh>::empty());
        assert(end == pos + 4 + 2 * le32(b@, pos as int));
    }
    while cur < end
        invariant
            pos + 4 <= start <= cur <= end <= b@.len(),
            b@.len() == len,
            start == pos + 4,
            end == pos + 4 + 2 * le32(b@, pos as int),
            match spec_decode_meshes(b@, start as int, cur as int, end as int) {
                None => spec_decode_meshes(b@, start as int, start as int, end as int) is None,
                Some(t) => spec_decode_meshes(b@, start as int, start as int, end as int) == Some(
                    (views_of(out@) + t.0, t.1),
                ),
            },
        decreases end - cur,
    {
        let (m, p) = match Mesh::decode(b, cur) {
            Ok(x) => x,
            Err(e) => { return Err(e) },
        };
        if p <= cur || p > end {
            return Err(DecodeError::UnexpectedEof);
        }
        let rem: usize = (p - start) % 4;
        let pad: usize = if rem == 0 {
            0
        } else {
            4 - rem
        };
        let next: usize = if end - p < pad {
            end
        } else {
            p + pad
        };
        proof {
            lemma_meshes_step(
                b@,
                start as int,
                cur as int,
                end as int,
                m@,
                p as int,
                next as int,
                views_of(out@),
            );
            crate::codec::lemma_views_of_push::<Mesh>(out@, m);
        }
        out.push(m);
        cur = next;
    }
    proof {
        assert(spec_decode_meshes(b@, start as int, cur as int, end as int) == Some(
            (Seq::<SpecMesh>::empty(), end as int),
        ));
        assert(views_of(out@) + Seq::<SpecMesh>::empty() =~= views_of(out@));
    }
    Ok((out, end))
}

/// One step of decoding the mesh pool: consuming one mesh and its alignment
/// padding extends the decoded prefix by that mesh.
pub proof fn lemma_meshes_step(
    b: Seq<u8>,
    start: int,
    cur: int,
    end: int,
    mv: SpecMesh,
    p: int,
    next: int,
    acc: Seq<SpecMesh>,
)
    requires
        cur < end,
        Mesh::spec_decode(b, cur) == Some((mv, p)),
        cur < p <= end,
        next == ({
            let pad = if (p - start) % 4 == 0 {
                0int
            } else {
                4 - ((p - start) % 4)
            };
            if p + pad > end {
                end
            } else {
                p + pad
            }
        }),
        match spec_decode_meshes(b, start, cur, end) {
            None => spec_decode_meshes(b, start, start, end) is None,
            Some(t) => spec_decode_meshes(b, start, start, end) == Some((acc + t.0, t.1)),
        },
    ensures
        match spec_decode_meshes(b, start, next, end) {
            None => spec_decode_meshes(b, start, start, end) is None,
            Some(t) => spec_decode_meshes(b, start, start, end) == Some(
                (acc.push(mv) + t.0, t.1),
            ),
        },
{
    match spec_decode_meshes(b, start, next, end) {
        None => {
            assert(spec_decode_meshes(b, start, cur, end) is None);
        },
        Some(t) => {
            assert(spec_decode_meshes(b, start, cur, end) == Some((seq![mv] + t.0, t.1)));
            assert(acc + (seq![mv] + t.0) =~= acc.push(mv) + t.0);
        },
    }
}

impl Decode for Room {
    open spec fn spec_decode(b: Seq<u8>, pos: int) -> Option<(SpecRoom, int)> {
        if pos + 20 <= b.len() {
            match spec_decode_list_p16::<crate::model::RoomVertex>(b, pos + 20) {
                None => None,
                Some(v) => match spec_decode_list_p16::<RoomFace<4>>(b, v.1) {
                    None => None,
                    Some(q) => match spec_decode_list_p16::<RoomFace<3>>(b, q.1) {
                        None => None,
                        Some(t) => match spec_decode_list_p16::<crate::model::Sprite>(b, t.1) {
                            None => None,
                            Some(sp) => match spec_decode_list_p16::<crate::model::Portal>(
                                b,
                                sp.1,
                            ) {
                                None => None,
                                Some(po) => match spec_decode_grid::<crate::model::Sector>(
                                    b,
                                    po.1,
                                ) {
                                    None => None,
                                    Some(g) => if g.1 + 4 <= b.len() {
                                        match spec_decode_list_p16::<crate::model::Light>(
                                            b,
                                            g.1 + 4,
                                        ) {
                                            None => None,
                                            Some(li) => match spec_decode_list_p16::<
                                                crate::model::RoomStaticMesh,
                                            >(b, li.1) {
                                                None => None,
                                                Some(rs) => if rs.1 + 7 <= b.len() {
                                                    Some(
                                                        (
                                                            SpecRoom {
                                                                x: as_i32(le32(b, pos)),
                                                                z: as_i32(le32(b, pos + 4)),
                                                                y_bottom: as_i32(le32(b, pos + 8)),
                                                                y_top: as_i32(le32(b, pos + 12)),
                                                                vertices: v.0,
                                                                quads: q.0,
                                                                triangles: t.0,
                                                                sprites: sp.0,
                                                                portals: po.0,
                                                                sectors: g.0,
                                                                color: le32(b, g.1),
                                                                lights: li.0,
                                                                room_static_meshes: rs.0,
                                                                flip_room_id: le16(b, rs.1),
                                                                flags: le16(b, rs.1 + 2),
                                                                water_effect: b[rs.1 + 4],
                                                                reverb: b[rs.1 + 5],
                                                                flip_group: b[rs.1 + 6],
                                                            },
                                                            rs.1 + 7,
                                                        ),
                                                    )
                                                } else {
                                                    None
                                                },
                                            },
                                        }
                                    } else {
                                        None
                                    },
                                },
                            },
                        },
                    },
                },
            }
        } else {
            None
        }
    }

    fn decode(b: &Vec<u8>, pos: usize) -> (r: Result<(Room, usize), DecodeError>) {
        let len: usize = b.len();
        if len - pos < 20 {
            return Err(DecodeError::UnexpectedEof);
        }
        let (vertices, p1) = match decode_list_p16::<crate::model::RoomVertex>(b, pos + 20) {
            Ok(x) => x,
            Err(e) => { return Err(e) },
        };
        let (quads, p2) = match decode_list_p16::<RoomFace<4>>(b, p1) {
            Ok(x) => x,
            Err(e) => { return Err(e) },
        };
        let (triangles, p3) = match decode_list_p16::<RoomFace<3>>(b, p2) {
            Ok(x) => x,
            Err(e) => { return Err(e) },
        };
        let (sprites, p4) = match decode_list_p16::<crate::model::Sprite>(b, p3) {
            Ok(x) => x,
            Err(e) => { return Err(e) },
        };
        let (portals, p5) = match decode_list_p16::<crate::model::Portal>(b, p4) {
            Ok(x) => x,
            Err(e) => { return Err(e) },
        };
        let (sectors, p6) = match decode_grid::<crate::model::Sector>(b, p5) {
            Ok(x) => x,
            Err(e) => { return Err(e) },
        };
        if len - p6 < 4 {
            return Err(DecodeError::UnexpectedEof);
        }
        let color = get_u32(b, p6);
        let (lights, p7) = match decode_list_p16::<crate::model::Light>(b, p6 + 4) {
            Ok(x) => x,
            Err(e) => { return Err(e) },
        };
        let (room_static_meshes, p8) = match decode_list_p16::<crate::model::RoomStaticMesh>(
            b,
            p7,
        ) {
            Ok(x) => x,
            Err(e) => { return Err(e) },
        };
        if len - p8 < 7 {
            return Err(DecodeError::UnexpectedEof);
        }
        proof {
            assert(views_of(vertices@) =~= vertices@);
            assert(views_of(sprites@) =~= sprites@);
            assert(views_of(lights@) =~= lights@);
            assert(views_of(room_static_meshes@) =~= room_static_meshes@);
        }
        Ok(
            (
                Room {
                    x: get_i32(b, pos),
                    z: get_i32(b, pos + 4),
                    y_bottom: get_i32(b, pos + 8),
                    y_top: get_i32(b, pos + 12),
                    vertices,
                    quads,
                    triangles,
                    sprites,
                    portals,
                    sectors,
                    color,
                    lights,
                    room_static_meshes,
                    flip_room_id: get_u16(b, p8),
                    flags: get_u16(b, p8 + 2),
                    water_effect: get_u8(b, p8 + 4),
                    reverb: get_u8(b, p8 + 5),
                    flip_group: get_u8(b, p8 + 6),
                },
                p8 + 7,
            ),
        )
    }
}

impl Decode for Sample {
    open spec fn spec_decode(b: Seq<u8>, pos: int) -> Option<(SpecSample, int)> {
        if pos + 4 <= b.len() {
            match spec_decode_list_p32::<u8>(b, pos + 4) {
                None => None,
                Some(d) => Some((SpecSample { uncompressed: le32(b, pos), data: d.0 }, d.1)),
            }
        } else {
            None
        }
    }

    fn decode(b: &Vec<u8>, pos: usize) -> (r: Result<(Sample, usize), DecodeError>) {
        if b.len() - pos < 4 {
            return Err(DecodeError::UnexpectedEof);
        }
        let uncompressed = get_u32(b, pos);
        let (data, p) = match decode_list_p32::<u8>(b, pos + 4) {
            Ok(x) => x,
            Err(e) => { return Err(e) },
        };
        proof {
            assert(views_of(data@) =~= data@);
        }
        Ok((Sample { uncompressed, data }, p))
    }
}

/// The meaning of the whole game world: every table of [`LevelData`], in
/// declared order. The `zones` count is the decoded `boxes` count times
/// [`ZONE_FACTOR`], and `sound_map` always holds [`SOUND_MAP_LEN`] words.
pub open spec fn spec_decode_level_data(b: Seq<u8>, pos: int) -> Option<(SpecLevelData, int)> {
    if pos + 4 <= b.len() {
        match spec_decode_list_p16::<Room>(b, pos + 4) {
            None => None,
            Some(l1) => match spec_decode_list_p32::<u16>(b, l1.1) {
                None => None,
                Some(l2) => match spec_decode_mesh_pool(b, l2.1) {
                    None => None,
                    Some(l3) => match spec_decode_list_p32::<u32>(b, l3.1) {
                        None => None,
                        Some(l4) => match spec_decode_list_p32::<crate::model::Anim>(b, l4.1) {
                            None => None,
                            Some(l5) => match spec_decode_list_p32::<crate::model::StateChange>(b, l5.1) {
                                None => None,
                                Some(l6) => match spec_decode_list_p32::<crate::model::AnimDispatch>(b, l6.1) {
                                    None => None,
                                    Some(l7) => match spec_decode_list_p32::<u16>(b, l7.1) {
                                        None => None,
                                        Some(l8) => match spec_decode_list_p32::<crate::model::MeshNode>(b, l8.1) {
                                            None => None,
                                            Some(l9) => match spec_decode_list_p32::<u16>(b, l9.1) {
                                                None => None,
                                                Some(l10) => match spec_decode_list_p32::<crate::model::Model>(b, l10.1) {
                                                    None => None,
                                                    Some(l11) => match spec_decode_list_p32::<crate::model::StaticMesh>(b, l11.1) {
                                                        None => None,
                                                        Some(l12) => if l12.1 + 3 <= b.len() {
                                                            match spec_decode_list_p32::<crate::model::SpriteTexture>(b, l12.1 + 3) {
                                                                None => None,
                                                                Some(l13) => match spec_decode_list_p32::<crate::model::SpriteSequence>(b, l13.1) {
                                                                    None => None,
                                                                    Some(l14) => match spec_decode_list_p32::<crate::model::Camera>(b, l14.1) {
                                                                        None => None,
                                                                        Some(l15) => match spec_decode_list_p32::<crate::model::FlybyCamera>(b, l15.1) {
                                                                            None => None,
                                                                            Some(l16) => match spec_decode_list_p32::<crate::model::SoundSource>(b, l16.1) {
                                                                                None => None,
                                                                                Some(l17) => match spec_decode_list_p32::<crate::model::TRBox>(b, l17.1) {
                                                                                    None => None,
                                                                                    Some(l18) => match spec_decode_list_p32::<u16>(b, l18.1) {
                                                                                        None => None,
                                                                                        Some(l19) => match spec_decode_list::<u16>(b, l19.1, (l18.0.len() * ZONE_FACTOR) as nat) {
                                                                                            None => None,
                                                                                            Some(l20) => match spec_decode_list_p32::<u16>(b, l20.1) {
                                                                                                None => None,
                                                                                                Some(l21) => if l21.1 + 4 <= b.len() {
                                                                                                    match spec_decode_list_p32::<crate::model::ObjectTexture>(b, l21.1 + 4) {
                                                                                                        None => None,
                                                                                                        Some(l22) => match spec_decode_list_p32::<crate::model::Entity>(b, l22.1) {
                                                                                                            None => None,
                                                                                                            Some(l23) => match spec_decode_list_p32::<crate::model::Ai>(b, l23.1) {
                                                                                                                None => None,
                                                                                                                Some(l24) => match spec_decode_list_p16::<u8>(b, l24.1) {
                                                                                                                    None => None,
                                                                                                                    Some(l25) => match spec_decode_list::<u16>(b, l25.1, SOUND_MAP_LEN as nat) {
                                                                                                                        None => None,
                                                                                                                        Some(l26) => match spec_decode_list_p32::<crate::model::SoundDetail>(b, l26.1) {
                                                                                                                            None => None,
                                                                                                                            Some(l27) => match spec_decode_list_p32::<u32>(b, l27.1) {
                                                                                                                                None => None,
                                                                                                                                Some(l28) => if l28.1 + 6 <= b.len() {
                                                                                                                                    Some(
                                                                                                                                        (
                                                                                                                                            SpecLevelData {
                                                                                                                                                rooms: l1.0,
                                                                                                                                                floor_data: l2.0,
                                                                                                                                                meshes: l3.0,
                                                                                                                                                mesh_pointers: l4.0,
                                                                                                                                                animations: l5.0,
                                                                                                                                                state_changes: l6.0,
                                                                                                                                                anim_dispatches: l7.0,
                                                                                                                                                anim_commands: l8.0,
                                                                                                                                                mesh_nodes: l9.0,
                                                                                                                                                frames: l10.0,
                                                                                                                                                models: l11.0,
                                                                                                                                                static_meshes: l12.0,
                                                                                                                                                spr: b.subrange(l12.1, l12.1 + 3),
                                                                                                                                                sprite_textures: l13.0,
                                                                                                                                                sprite_sequences: l14.0,
                                                                                                                                                cameras: l15.0,
                                                                                                                                                flyby_cameras: l16.0,
                                                                                                                                                sound_sources: l17.0,
                                                                                                                                                boxes: l18.0,
                                                                                                                                                overlaps: l19.0,
                                                                                                                                                zones: l20.0,
                                                                                                                                                animated_textures: l21.0,
                                                                                                                                                animated_textures_uv_count: b[l21.1],
                                                                                                                                                tex: b.subrange(l21.1 + 1, l21.1 + 4),
                                                                                                                                                object_textures: l22.0,
                                                                                                                                                entities: l23.0,
                                                                                                                                                ais: l24.0,
                                                                                                                                                demo_data: l25.0,
                                                                                                                                                sound_map: l26.0,
                                                                                                                                                sound_details: l27.0,
                                                                                                                                                sample_indices: l28.0,
                                                                                                                                                zero: b.subrange(l28.1, l28.1 + 6),
                                                                                                                                            },
                                                                                                                                            l28.1 + 6,
                                                                                                                                        ),
                                                                                                                                    )
                                                                                                                                } else {
                                                                                                                                    None
                                                                                                                                },
                                                                                                                            },
                                                                                                                        },
                                                                                                                    },
                                                                                                                },
                                                                                                            },
                                                                                                        },
                                                                                                    }
                                                                                                } else {
                                                                                                    None
                                                                                                },
                                                                                            },
                                                                                        },
                                                                                    },
                                                                                },
                                                                            },
                                                                        },
                                                                    },
                                                                },
                                                            }
                                                        } else {
                                                            None
                                                        },
                                                    },
                                                },
                                            },
                                        },
                                    },
                                },
                            },
                        },
                    },
                },
            },
        }
    } else {
        None
    }
}

/// Decodes the whole game world. Beyond structural fidelity, the result's
/// dependent counts hold by construction: ten zone words for every decoded
/// box, and a full sound map.
#[verifier::rlimit(100)]
pub fn read_level_data(b: &Vec<u8>, pos: usize) -> (r: Result<(LevelData, usize), DecodeError>)
    requires
        pos <= b@.len(),
    ensures
        match r {
            Ok(vp) => spec_decode_level_data(b@, pos as int) == Some((vp.0@, vp.1 as int)) && pos
                <= vp.1 <= b@.len() && vp.0.zones@.len() == vp.0.boxes@.len() * ZONE_FACTOR
                && vp.0.sound_map@.len() == SOUND_MAP_LEN,
            Err(e) => spec_decode_level_data(b@, pos as int) is None && e
                == DecodeError::UnexpectedEof,
        },
{
    let len: usize = b.len();
    if len - pos < 4 {
        return Err(DecodeError::UnexpectedEof);
    }
    let (rooms, p1) = match decode_list_p16::<Room>(b, pos + 4) {
        Ok(x) => x,
        Err(e) => { return Err(e) },
    };
    let (floor_data, p2) = match decode_list_p32::<u16>(b, p1) {
        Ok(x) => x,
        Err(e) => { return Err(e) },
    };
    let (meshes, p3) = match decode_mesh_pool(b, p2) {
        Ok(x) => x,
        Err(e) => { return Err(e) },
    };
    let (mesh_pointers, p4) = match decode_list_p32::<u32>(b, p3) {
        Ok(x) => x,
        Err(e) => { return Err(e) },
    };
    let (animations, p5) = match decode_list_p32::<crate::model::Anim>(b, p4) {
        Ok(x) => x,
        Err(e) => { return Err(e) },
    };
    let (state_changes, p6) = match decode_list_p32::<crate::model::StateChange>(b, p5) {
        Ok(x) => x,
        Err(e) => { return Err(e) },
    };
    let (anim_dispatches, p7) = match decode_list_p32::<crate::model::AnimDispatch>(b, p6) {
        Ok(x) => x,
        Err(e) => { return Err(e) },
    };
    let (anim_commands, p8) = match decode_list_p32::<u16>(b, p7) {
        Ok(x) => x,
        Err(e) => { return Err(e) },
    };
    let (mesh_nodes, p9) = match decode_list_p32::<crate::model::MeshNode>(b, p8) {
        Ok(x) => x,
        Err(e) => { return Err(e) },
    };
    let (frames, p10) = match decode_list_p32::<u16>(b, p9) {
        Ok(x) => x,
        Err(e) => { return Err(e) },
    };
    let (models, p11) = match decode_list_p32::<crate::model::Model>(b, p10) {
        Ok(x) => x,
        Err(e) => { return Err(e) },
    };
    let (static_meshes, p12) = match decode_list_p32::<crate::model::StaticMesh>(b, p11) {
        Ok(x) => x,
        Err(e) => { return Err(e) },
    };
    if len - p12 < 3 {
        return Err(DecodeError::UnexpectedEof);
    }
    let spr = copy_range(b, p12, 3);
    let (sprite_textures, p13) = match decode_list_p32::<crate::model::SpriteTexture>(
        b,
        p12 + 3,
    ) {
        Ok(x) => x,
        Err(e) => { return Err(e) },
    };
    let (sprite_sequences, p14) = match decode_list_p32::<crate::model::SpriteSequence>(b, p13) {
        Ok(x) => x,
        Err(e) => { return Err(e) },
    };
    let (cameras, p15) = match decode_list_p32::<crate::model::Camera>(b, p14) {
        Ok(x) => x,
        Err(e) => { return Err(e) },
    };
    let (flyby_cameras, p16) = match decode_list_p32::<crate::model::FlybyCamera>(b, p15) {
        Ok(x) => x,
        Err(e) => { return Err(e) },
    };
    let (sound_sources, p17) = match decode_list_p32::<crate::model::SoundSource>(b, p16) {
        Ok(x) => x,
        Err(e) => { return Err(e) },
    };
    let (boxes, p18) = match decode_list_p32::<crate::model::TRBox>(b, p17) {
        Ok(x) => x,
        Err(e) => { return Err(e) },
    };
    let (overlaps, p19) = match decode_list_p32::<u16>(b, p18) {
        Ok(x) => x,
        Err(e) => { return Err(e) },
    };
    let num_zones: usize = match boxes.len().checked_mul(ZONE_FACTOR) {
        Some(n) => n,
        None => {
            proof {
                lemma_short_read_fatal_u16(
                    b@,
                    p19 as int,
                    (boxes@.len() * ZONE_FACTOR) as nat,
                );
            }
            return Err(DecodeError::UnexpectedEof);
        },
    };
    let (zones, p20) = match decode_list::<u16>(b, p19, num_zones) {
        Ok(x) => x,
        Err(e) => { return Err(e) },
    };
    let (animated_textures, p21) = match decode_list_p32::<u16>(b, p20) {
        Ok(x) => x,
        Err(e) => { return Err(e) },
    };
    if len - p21 < 4 {
        return Err(DecodeError::UnexpectedEof);
    }
    let animated_textures_uv_count = get_u8(b, p21);
    let tex = copy_range(b, p21 + 1, 3);
    let (object_textures, p22) = match decode_list_p32::<crate::model::ObjectTexture>(
        b,
        p21 + 4,
    ) {
        Ok(x) => x,
        Err(e) => { return Err(e) },
    };
    let (entities, p23) = match decode_list_p32::<crate::model::Entity>(b, p22) {
        Ok(x) => x,
        Err(e) => { return Err(e) },
    };
    let (ais, p24) = match decode_list_p32::<crate::model::Ai>(b, p23) {
        Ok(x) => x,
        Err(e) => { return Err(e) },
    };
    let (demo_data, p25) = match decode_list_p16::<u8>(b, p24) {
        Ok(x) => x,
        Err(e) => { return Err(e) },
    };
    let (sound_map, p26) = match decode_list::<u16>(b, p25, SOUND_MAP_LEN) {
        Ok(x) => x,
        Err(e) => { return Err(e) },
    };
    let (sound_details, p27) = match decode_list_p32::<crate::model::SoundDetail>(b, p26) {
        Ok(x) => x,
        Err(e) => { return Err(e) },
    };
    let (sample_indices, p28) = match decode_list_p32::<u32>(b, p27) {
        Ok(x) => x,
        Err(e) => { return Err(e) },
    };
    if len - p28 < 6 {
        return Err(DecodeError::UnexpectedEof);
    }
    let zero = copy_range(b, p28, 6);
    proof {
        assert(views_of(floor_data@) =~= floor_data@);
        assert(views_of(mesh_pointers@) =~= mesh_pointers@);
        assert(views_of(animations@) =~= animations@);
        assert(views_of(state_changes@) =~= state_changes@);
        assert(views_of(anim_dispatches@) =~= anim_dispatches@);
        assert(views_of(anim_commands@) =~= anim_commands@);
        assert(views_of(mesh_nodes@) =~= mesh_nodes@);
        assert(views_of(frames@) =~= frames@);
        assert(views_of(models@) =~= models@);
        assert(views_of(static_meshes@) =~= static_meshes@);
        assert(views_of(sprite_textures@) =~= sprite_textures@);
        assert(views_of(sprite_sequences@) =~= sprite_sequences@);
        assert(views_of(cameras@) =~= cameras@);
        assert(views_of(flyby_cameras@) =~= flyby_cameras@);
        assert(views_of(sound_sources@) =~= sound_sources@);
        assert(views_of(boxes@) =~= boxes@);
        assert(views_of(overlaps@) =~= overlaps@);
        assert(views_of(zones@) =~= zones@);
        assert(views_of(animated_textures@) =~= animated_textures@);
        assert(views_of(entities@) =~= entities@);
        assert(views_of(ais@) =~= ais@);
        assert(views_of(demo_data@) =~= demo_data@);
        assert(views_of(sound_map@) =~= sound_map@);
        assert(views_of(sound_details@) =~= sound_details@);
        assert(views_of(sample_indices@) =~= sample_indices@);
    }
    Ok(
        (
            LevelData {
                rooms,
                floor_data,
                meshes,
                mesh_pointers,
                animations,
                state_changes,
                anim_dispatches,
                anim_commands,
                mesh_nodes,
                frames,
                models,
                static_meshes,
                spr,
                sprite_textures,
                sprite_sequences,
                cameras,
                flyby_cameras,
                sound_sources,
                boxes,
                overlaps,
                zones,
                animated_textures,
                animated_textures_uv_count,
                tex,
                object_textures,
                entities,
                ais,
                demo_data,
                sound_map,
                sound_details,
                sample_indices,
                zero,
            },
            p28 + 6,
        ),
    )
}

impl Decode for LevelData {
    open spec fn spec_decode(b: Seq<u8>, pos: int) -> Option<(SpecLevelData, int)> {
        spec_decode_level_data(b, pos)
    }

    fn decode(b: &Vec<u8>, pos: usize) -> (r: Result<(LevelData, usize), DecodeError>) {
        read_level_data(b, pos)
    }
}

} // verus!
