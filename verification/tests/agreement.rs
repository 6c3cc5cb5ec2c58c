//! The mesh layouts of this crate, held against those of `bevy_render`.

use bevy_render::mesh::{
    Mesh, MeshVertexAttribute as HostAttribute, MeshVertexBufferLayout as HostLayout,
    VertexAttributeDescriptor as HostDescriptor,
};
use bevy_render::render_resource::{
    VertexAttribute as HostVertexAttribute, VertexBufferLayout as HostBufferLayout,
    VertexFormat as HostFormat, VertexStepMode as HostStepMode,
};
use visbuffer::layout::{
    MeshVertexAttribute, MeshVertexAttributeId, MeshVertexBufferLayout, VertexAttribute,
    VertexAttributeDescriptor, VertexBufferLayout, VertexFormat, VertexStepMode,
};

const FORMATS: [HostFormat; 4] =
    [HostFormat::Float32x2, HostFormat::Float32x3, HostFormat::Float32x4, HostFormat::Uint16x4];

fn host_format(format: VertexFormat) -> HostFormat {
    *FORMATS.iter().find(|host| **host as u32 == format.0).unwrap()
}

fn host_step(step_mode: VertexStepMode) -> HostStepMode {
    match step_mode {
        VertexStepMode::Vertex => HostStepMode::Vertex,
        VertexStepMode::Instance => HostStepMode::Instance,
    }
}

fn host_id(id: MeshVertexAttributeId) -> bevy_render::mesh::MeshVertexAttributeId {
    HostAttribute::new("", id.0, HostFormat::Float32).id
}

fn host_buffer_layout(layout: &VertexBufferLayout) -> HostBufferLayout {
    HostBufferLayout {
        array_stride: layout.array_stride,
        step_mode: host_step(layout.step_mode),
        attributes: layout
            .attributes
            .iter()
            .map(|a| HostVertexAttribute {
                format: host_format(a.format),
                offset: a.offset,
                shader_location: a.shader_location,
            })
            .collect(),
    }
}

fn host_layout(layout: &MeshVertexBufferLayout) -> HostLayout {
    HostLayout::new(
        layout.attribute_ids().iter().map(|id| host_id(*id)).collect(),
        host_buffer_layout(layout.layout()),
    )
}

fn host_requests(requests: &[VertexAttributeDescriptor]) -> Vec<HostDescriptor> {
    requests.iter().map(|r| HostDescriptor::new(r.shader_location, host_id(r.id), r.name)).collect()
}

/// A layout with the attributes `ids`, of changing formats, one behind the other.
fn layout(ids: &[u64], step_mode: VertexStepMode) -> MeshVertexBufferLayout {
    let mut offset = 0;
    let mut attributes = vec![];
    for (i, _) in ids.iter().enumerate() {
        let format = FORMATS[i % FORMATS.len()];
        attributes.push(VertexAttribute {
            format: VertexFormat(format as u32),
            offset,
            shader_location: i as u32,
        });
        offset += format.size();
    }
    MeshVertexBufferLayout::new(
        ids.iter().map(|id| MeshVertexAttributeId(*id)).collect(),
        VertexBufferLayout { array_stride: offset, step_mode, attributes },
    )
    .unwrap()
}

fn layouts() -> Vec<MeshVertexBufferLayout> {
    vec![
        layout(&[], VertexStepMode::Vertex),
        layout(&[0], VertexStepMode::Vertex),
        layout(&[0, 1, 2], VertexStepMode::Vertex),
        layout(&[2, 0, 3, 7, 6], VertexStepMode::Instance),
        layout(&[5, 5, 0, 5], VertexStepMode::Vertex),
        layout(&[7, 1, 988_540_917], VertexStepMode::Vertex),
    ]
}

fn requests() -> Vec<Vec<VertexAttributeDescriptor>> {
    let position = MeshVertexAttribute::position();
    let uv_0 = MeshVertexAttribute::uv_0();
    let uv_1 = MeshVertexAttribute::uv_1();
    let weight = MeshVertexAttribute::joint_weight();
    let index = MeshVertexAttribute::joint_index();
    let color = MeshVertexAttribute::new("Vertex_Color", 5, VertexFormat(VertexFormat::FLOAT32X4));
    vec![
        vec![],
        vec![position.at_shader_location(0)],
        vec![uv_0.at_shader_location(1), position.at_shader_location(0)],
        vec![position.at_shader_location(0), position.at_shader_location(3)],
        vec![color.at_shader_location(4)],
        vec![index.at_shader_location(5), weight.at_shader_location(6)],
        vec![position.at_shader_location(0), uv_1.at_shader_location(2), uv_0.at_shader_location(1)],
        vec![weight.at_shader_location(9), uv_1.at_shader_location(2), index.at_shader_location(8)],
    ]
}

#[test]
fn the_standard_attributes_are_those_of_the_host() {
    let pairs = [
        (MeshVertexAttribute::position(), Mesh::ATTRIBUTE_POSITION),
        (MeshVertexAttribute::uv_0(), Mesh::ATTRIBUTE_UV_0),
        (MeshVertexAttribute::uv_1(), Mesh::ATTRIBUTE_UV_1),
        (MeshVertexAttribute::joint_weight(), Mesh::ATTRIBUTE_JOINT_WEIGHT),
        (MeshVertexAttribute::joint_index(), Mesh::ATTRIBUTE_JOINT_INDEX),
    ];
    for (ours, host) in pairs {
        assert_eq!(ours.name, host.name);
        assert_eq!(host_id(ours.id), host.id);
        assert_eq!(ours.format.0, host.format as u32);
    }
}

#[test]
fn contains_agrees_with_the_host() {
    for ours in layouts() {
        let host = host_layout(&ours);
        for id in [0, 1, 2, 3, 4, 5, 6, 7, 8, 988_540_917, u64::MAX] {
            let id = MeshVertexAttributeId(id);
            assert_eq!(ours.contains(id), host.contains(host_id(id)), "{:?} in {:?}", id, ours);
        }
    }
}

#[test]
fn get_layout_agrees_with_the_host() {
    let mut answered = 0;
    let mut refused = 0;
    for ours in layouts() {
        let host = host_layout(&ours);
        for request in requests() {
            match (ours.get_layout(&request), host.get_layout(&host_requests(&request))) {
                (Ok(ours), Ok(host)) => {
                    assert_eq!(host_buffer_layout(&ours), host);
                    answered += 1;
                }
                (Err(ours), Err(host)) => {
                    let expected = format!(
                        "Mesh is missing requested attribute: {} ({:?}, pipeline type: {:?})",
                        ours.name,
                        host_id(ours.id),
                        ours.pipeline_type
                    );
                    assert_eq!(format!("{}", host), expected);
                    refused += 1;
                }
                (ours, host) => panic!("{:?} against {:?}", ours, host),
            }
        }
    }
    assert!(answered > 10);
    assert!(refused > 10);
}
