//! Vertex buffer layouts of meshes, and the resolution of the attributes that a
//! pipeline asks for against the attributes that a mesh has.

use vstd::prelude::*;

verus! {

/// Identifies a vertex attribute of a mesh.
#[derive(Clone, Copy, Debug, PartialEq, Eq, Hash, Structural)]
pub struct MeshVertexAttributeId(pub u64);

/// The format of a vertex attribute, by its number in the GPU interface.
#[derive(Clone, Copy, Debug, PartialEq, Eq, Hash, Structural)]
pub struct VertexFormat(pub u32);

impl VertexFormat {
    pub const UINT16X4: u32 = 14;

    pub const FLOAT32X2: u32 = 28;

    pub const FLOAT32X3: u32 = 29;

    pub const FLOAT32X4: u32 = 30;
}

/// Whether a vertex buffer advances per vertex or per instance.
#[derive(Clone, Copy, Debug, PartialEq, Eq, Hash, Structural)]
pub enum VertexStepMode {
    Vertex,
    Instance,
}

/// One attribute inside a vertex buffer, as a pipeline reads it.
#[derive(Clone, Copy, Debug, PartialEq, Eq, Hash, Structural)]
pub struct VertexAttribute {
    pub format: VertexFormat,
    /// Byte offset of the attribute from the start of a vertex.
    pub offset: u64,
    /// Location at which the vertex shader receives the attribute.
    pub shader_location: u32,
}

/// How the vertices of one buffer are laid out.
#[derive(Debug, PartialEq, Eq, Hash)]
pub struct VertexBufferLayout {
    pub array_stride: u64,
    pub step_mode: VertexStepMode,
    pub attributes: Vec<VertexAttribute>,
}

/// Mathematical content of a [`VertexBufferLayout`].
pub struct VertexBufferLayoutView {
    pub array_stride: u64,
    pub step_mode: VertexStepMode,
    pub attributes: Seq<VertexAttribute>,
}

impl View for VertexBufferLayout {
    type V = VertexBufferLayoutView;

    open spec fn view(&self) -> VertexBufferLayoutView {
        VertexBufferLayoutView {
            array_stride: self.array_stride,
            step_mode: self.step_mode,
            attributes: self.attributes@,
        }
    }
}

impl Clone for VertexBufferLayout {
    fn clone(&self) -> (r: Self)
        ensures
            r@ == self@,
    {
        let attributes = self.attributes.clone();
        VertexBufferLayout { array_stride: self.array_stride, step_mode: self.step_mode, attributes }
    }
}

impl DeepView for VertexBufferLayout {
    type V = VertexBufferLayoutView;

    open spec fn deep_view(&self) -> VertexBufferLayoutView {
        self@
    }
}

/// A named vertex attribute that meshes may carry.
#[derive(Clone, Copy, Debug, PartialEq, Eq, Hash)]
pub struct MeshVertexAttribute {
    pub name: &'static str,
    pub id: MeshVertexAttributeId,
    pub format: VertexFormat,
}

/// A request for one mesh attribute at one shader location.
#[derive(Clone, Copy, Debug, PartialEq, Eq, Hash)]
pub struct VertexAttributeDescriptor {
    pub shader_location: u32,
    pub id: MeshVertexAttributeId,
    pub name: &'static str,
}

impl VertexAttributeDescriptor {
    pub fn new(shader_location: u32, id: MeshVertexAttributeId, name: &'static str) -> (d: Self)
        ensures
            d == (VertexAttributeDescriptor { shader_location, id, name }),
    {
        VertexAttributeDescriptor { shader_location, id, name }
    }
}

impl MeshVertexAttribute {
    pub fn new(name: &'static str, id: u64, format: VertexFormat) -> (a: Self)
        ensures
            a == (MeshVertexAttribute { name, id: MeshVertexAttributeId(id), format }),
    {
        MeshVertexAttribute { name, id: MeshVertexAttributeId(id), format }
    }

    /// The request for this attribute at `shader_location`.
    pub open spec fn spec_at_shader_location(&self, shader_location: u32) -> VertexAttributeDescriptor {
        VertexAttributeDescriptor { shader_location, id: self.id, name: self.name }
    }

    /// The request for this attribute at `shader_location`.
    #[verifier::when_used_as_spec(spec_at_shader_location)]
    pub fn at_shader_location(&self, shader_location: u32) -> (d: VertexAttributeDescriptor)
        ensures
            d == self.spec_at_shader_location(shader_location),
    {
        VertexAttributeDescriptor::new(shader_location, self.id, self.name)
    }

    /// Where the vertex is located in space.
    pub open spec fn spec_position() -> MeshVertexAttribute {
        MeshVertexAttribute {
            name: "Vertex_Position",
            id: MeshVertexAttributeId(0),
            format: VertexFormat(VertexFormat::FLOAT32X3),
        }
    }

    /// Where the vertex is located in space.
    #[verifier::when_used_as_spec(spec_position)]
    pub fn position() -> (a: MeshVertexAttribute)
        ensures
            a == Self::spec_position(),
    {
        MeshVertexAttribute::new("Vertex_Position", 0, VertexFormat(VertexFormat::FLOAT32X3))
    }

    /// Texture coordinates of the vertex.
    pub open spec fn spec_uv_0() -> MeshVertexAttribute {
        MeshVertexAttribute {
            name: "Vertex_Uv",
            id: MeshVertexAttributeId(2),
            format: VertexFormat(VertexFormat::FLOAT32X2),
        }
    }

    /// Texture coordinates of the vertex.
    #[verifier::when_used_as_spec(spec_uv_0)]
    pub fn uv_0() -> (a: MeshVertexAttribute)
        ensures
            a == Self::spec_uv_0(),
    {
        MeshVertexAttribute::new("Vertex_Uv", 2, VertexFormat(VertexFormat::FLOAT32X2))
    }

    /// Alternate texture coordinates of the vertex.
    pub open spec fn spec_uv_1() -> MeshVertexAttribute {
        MeshVertexAttribute {
            name: "Vertex_Uv_1",
            id: MeshVertexAttributeId(3),
            format: VertexFormat(VertexFormat::FLOAT32X2),
        }
    }

    /// Alternate texture coordinates of the vertex.
    #[verifier::when_used_as_spec(spec_uv_1)]
    pub fn uv_1() -> (a: MeshVertexAttribute)
        ensures
            a == Self::spec_uv_1(),
    {
        MeshVertexAttribute::new("Vertex_Uv_1", 3, VertexFormat(VertexFormat::FLOAT32X2))
    }

    /// Weights of the joints that move the vertex.
    pub open spec fn spec_joint_weight() -> MeshVertexAttribute {
        MeshVertexAttribute {
            name: "Vertex_JointWeight",
            id: MeshVertexAttributeId(6),
            format: VertexFormat(VertexFormat::FLOAT32X4),
        }
    }

    /// Weights of the joints that move the vertex.
    #[verifier::when_used_as_spec(spec_joint_weight)]
    pub fn joint_weight() -> (a: MeshVertexAttribute)
        ensures
            a == Self::spec_joint_weight(),
    {
        MeshVertexAttribute::new("Vertex_JointWeight", 6, VertexFormat(VertexFormat::FLOAT32X4))
    }

    /// Indices of the joints that move the vertex.
    pub open spec fn spec_joint_index() -> MeshVertexAttribute {
        MeshVertexAttribute {
            name: "Vertex_JointIndex",
            id: MeshVertexAttributeId(7),
            format: VertexFormat(VertexFormat::UINT16X4),
        }
    }

    /// Indices of the joints that move the vertex.
    #[verifier::when_used_as_spec(spec_joint_index)]
    pub fn joint_index() -> (a: MeshVertexAttribute)
        ensures
            a == Self::spec_joint_index(),
    {
        MeshVertexAttribute::new("Vertex_JointIndex", 7, VertexFormat(VertexFormat::UINT16X4))
    }
}

/// A pipeline asked for an attribute that the mesh does not have.
#[derive(Clone, Copy, Debug, PartialEq, Eq, Hash)]
pub struct MissingVertexAttributeError {
    pub pipeline_type: Option<&'static str>,
    pub id: MeshVertexAttributeId,
    pub name: &'static str,
}

/// The attributes of a mesh together with the layout of its vertex buffer:
/// the attribute at position `i` of the layout has the identifier at position
/// `i`.
#[derive(Debug, PartialEq, Eq, Hash)]
pub struct MeshVertexBufferLayout {
    attribute_ids: Vec<MeshVertexAttributeId>,
    layout: VertexBufferLayout,
}

/// Mathematical content of a [`MeshVertexBufferLayout`].
pub struct MeshVertexBufferLayoutView {
    pub attribute_ids: Seq<MeshVertexAttributeId>,
    pub layout: VertexBufferLayoutView,
}

impl MeshVertexBufferLayoutView {
    /// Every identifier has its attribute.
    pub open spec fn wf(self) -> bool {
        self.attribute_ids.len() == self.layout.attributes.len()
    }

    /// Whether the mesh has the attribute `id`.
    pub open spec fn contains(self, id: MeshVertexAttributeId) -> bool {
        self.attribute_ids.contains(id)
    }

    /// The attribute that answers the request `d`: format and offset of the
    /// first attribute of the mesh with that identifier, at the location that
    /// the request names.
    pub open spec fn resolve(self, d: VertexAttributeDescriptor) -> VertexAttribute {
        let index = self.attribute_ids.index_of_first(d.id).unwrap();
        VertexAttribute {
            format: self.layout.attributes[index].format,
            offset: self.layout.attributes[index].offset,
            shader_location: d.shader_location,
        }
    }

    /// Whether `index` is the first request that the mesh cannot answer.
    pub open spec fn is_first_missing(
        self,
        requests: Seq<VertexAttributeDescriptor>,
        index: int,
    ) -> bool {
        &&& 0 <= index < requests.len()
        &&& !self.contains(requests[index].id)
        &&& forall|j: int| 0 <= j < index ==> self.contains(#[trigger] requests[j].id)
    }

    /// Whether the mesh can answer every request.
    pub open spec fn can_resolve(self, requests: Seq<VertexAttributeDescriptor>) -> bool {
        forall|i: int| 0 <= i < requests.len() ==> self.contains(#[trigger] requests[i].id)
    }

    /// The vertex buffer layout that answers `requests` in their order, or the
    /// first request that the mesh cannot answer.
    pub open spec fn get_layout(self, requests: Seq<VertexAttributeDescriptor>) -> Result<
        VertexBufferLayoutView,
        MissingVertexAttributeError,
    > {
        if self.can_resolve(requests) {
            Ok(
                VertexBufferLayoutView {
                    array_stride: self.layout.array_stride,
                    step_mode: self.layout.step_mode,
                    attributes: Seq::new(requests.len(), |i: int| self.resolve(requests[i])),
                },
            )
        } else {
            let index = choose|index: int| self.is_first_missing(requests, index);
            Err(
                MissingVertexAttributeError {
                    pipeline_type: None,
                    id: requests[index].id,
                    name: requests[index].name,
                },
            )
        }
    }
}

impl View for MeshVertexBufferLayout {
    type V = MeshVertexBufferLayoutView;

    closed spec fn view(&self) -> MeshVertexBufferLayoutView {
        MeshVertexBufferLayoutView { attribute_ids: self.attribute_ids@, layout: self.layout@ }
    }
}

impl Clone for MeshVertexBufferLayout {
    fn clone(&self) -> (r: Self)
        ensures
            r@ == self@,
    {
        proof {
            use_type_invariant(self);
        }
        let attribute_ids = self.attribute_ids.clone();
        MeshVertexBufferLayout { attribute_ids, layout: self.layout.clone() }
    }
}

impl MeshVertexBufferLayout {
    #[verifier::type_invariant]
    spec fn inv(&self) -> bool {
        self.attribute_ids.len() == self.layout.attributes.len()
    }

    /// Pairs identifiers with a layout. `None` where the two differ in length.
    pub fn new(attribute_ids: Vec<MeshVertexAttributeId>, layout: VertexBufferLayout) -> (r: Option<
        Self,
    >)
        ensures
            r is Some <==> attribute_ids.len() == layout.attributes.len(),
            r matches Some(l) ==> l@ == (MeshVertexBufferLayoutView {
                attribute_ids: attribute_ids@,
                layout: layout@,
            }),
    {
        if attribute_ids.len() == layout.attributes.len() {
            Some(MeshVertexBufferLayout { attribute_ids, layout })
        } else {
            None
        }
    }

    /// The identifiers of the attributes, in the order of the layout.
    pub fn attribute_ids(&self) -> (ids: &[MeshVertexAttributeId])
        ensures
            ids@ == self@.attribute_ids,
            self@.wf(),
    {
        proof {
            use_type_invariant(self);
        }
        self.attribute_ids.as_slice()
    }

    /// The layout of the vertex buffer as the mesh stores it.
    pub fn layout(&self) -> (layout: &VertexBufferLayout)
        ensures
            layout@ == self@.layout,
            self@.wf(),
    {
        proof {
            use_type_invariant(self);
        }
        &self.layout
    }

    /// Whether the two layouts hold the same attributes in the same layout.
    pub fn same_as(&self, other: &MeshVertexBufferLayout) -> (r: bool)
        ensures
            r == (self@ == other@),
    {
        proof {
            use_type_invariant(self);
            use_type_invariant(other);
        }
        let n = self.attribute_ids.len();
        if n != other.attribute_ids.len() || self.layout.array_stride != other.layout.array_stride
            || self.layout.step_mode != other.layout.step_mode {
            return false;
        }
        let mut i: usize = 0;
        while i < n
            invariant
                n == self.attribute_ids.len(),
                n == other.attribute_ids.len(),
                n == self.layout.attributes.len(),
                n == other.layout.attributes.len(),
                i <= n,
                forall|j: int| 0 <= j < i ==> self.attribute_ids[j] == other.attribute_ids[j],
                forall|j: int| 0 <= j < i ==> self.layout.attributes[j] == other.layout.attributes[j],
            decreases n - i,
        {
            if self.attribute_ids[i] != other.attribute_ids[i] || self.layout.attributes[i]
                != other.layout.attributes[i] {
                return false;
            }
            i += 1;
        }
        assert(self.attribute_ids@ =~= other.attribute_ids@);
        assert(self.layout.attributes@ =~= other.layout.attributes@);
        true
    }

    /// Position of the first attribute with identifier `id`.
    fn position(&self, id: MeshVertexAttributeId) -> (r: Option<usize>)
        ensures
            match r {
                Some(i) => {
                    &&& i < self@.attribute_ids.len()
                    &&& self@.contains(id)
                    &&& self@.attribute_ids.index_of_first(id) == Some(i as int)
                },
                None => !self@.contains(id),
            },
    {
        let n = self.attribute_ids.len();
        let mut i: usize = 0;
        while i < n
            invariant
                n == self.attribute_ids.len(),
                i <= n,
                forall|j: int| 0 <= j < i ==> self.attribute_ids[j] != id,
            decreases n - i,
        {
            if self.attribute_ids[i] == id {
                proof {
                    self@.attribute_ids.index_of_first_ensures(id);
                }
                return Some(i);
            }
            i += 1;
        }
        None
    }

    /// Whether the mesh has the attribute `id`.
    pub fn contains(&self, id: MeshVertexAttributeId) -> (r: bool)
        ensures
            r == self@.contains(id),
    {
        self.position(id).is_some()
    }

    /// Resolves `attribute_descriptors` against the attributes of the mesh.
    ///
    /// Each request is answered by the first attribute of the mesh with its
    /// identifier, moved to the requested shader location. The first request
    /// that the mesh cannot answer is returned as the error.
    pub fn get_layout(&self, attribute_descriptors: &[VertexAttributeDescriptor]) -> (r: Result<
        VertexBufferLayout,
        MissingVertexAttributeError,
    >)
        ensures
            match self@.get_layout(attribute_descriptors@) {
                Ok(layout) => r is Ok && r->Ok_0@ == layout,
                Err(e) => r == Err::<VertexBufferLayout, MissingVertexAttributeError>(e),
            },
    {
        proof {
            use_type_invariant(self);
        }
        let n = attribute_descriptors.len();
        let mut attributes: Vec<VertexAttribute> = Vec::with_capacity(n);
        let mut i: usize = 0;
        while i < n
            invariant
                n == attribute_descriptors.len(),
                i <= n,
                self.attribute_ids.len() == self.layout.attributes.len(),
                attributes.len() == i,
                forall|j: int| 0 <= j < i ==> self@.contains(#[trigger] attribute_descriptors[j].id),
                forall|j: int|
                    0 <= j < i ==> #[trigger] attributes[j] == self@.resolve(
                        attribute_descriptors[j],
                    ),
            decreases n - i,
        {
            let attribute_descriptor = &attribute_descriptors[i];
            match self.position(attribute_descriptor.id) {
                Some(index) => {
                    proof {
                        self@.attribute_ids.index_of_first_ensures(attribute_descriptor.id);
                    }
                    let layout_attribute = &self.layout.attributes[index];
                    attributes.push(
                        VertexAttribute {
                            format: layout_attribute.format,
                            offset: layout_attribute.offset,
                            shader_location: attribute_descriptor.shader_location,
                        },
                    );
                },
                None => {
                    proof {
                        // The request is the first and the only first that is missing.
                        let requests = attribute_descriptors@;
                        assert(self@.is_first_missing(requests, i as int));
                        let chosen = choose|index: int| self@.is_first_missing(requests, index);
                        assert(chosen == i);
                    }
                    return Err(
                        MissingVertexAttributeError {
                            pipeline_type: None,
                            id: attribute_descriptor.id,
                            name: attribute_descriptor.name,
                        },
                    );
                },
            }
            i += 1;
        }
        let layout = VertexBufferLayout {
            array_stride: self.layout.array_stride,
            step_mode: self.layout.step_mode,
            attributes,
        };
        proof {
            let requests = attribute_descriptors@;
            assert(layout@.attributes =~= Seq::new(
                requests.len(),
                |i: int| self@.resolve(requests[i]),
            ));
        }
        Ok(layout)
    }
}

} // verus!
