//! Assembling shader passes: the staged passes a generated shader is built
//! from, collected per stage.

use std::collections::HashMap;
use vstd::prelude::*;

verus! {

/// Which pipeline stage a parameter or pass belongs to.
#[derive(Clone, Copy, Debug, PartialEq, Eq, Structural)]
pub enum ShaderStage {
    /// The vertex stage.
    Vertex,
    /// The fragment stage.
    Fragment,
    /// The mesh stage.
    Mesh,
}

/// One pass of the vertex stage.
#[derive(Clone, Debug)]
pub struct VertexPass {}

/// One pass of the fragment stage.
#[derive(Clone, Debug)]
pub struct FragmentPass {}

/// One pass of the mesh stage.
#[derive(Clone, Debug)]
pub struct MeshPass {}

/// A shader pass contribution: at most one pass per stage.
#[derive(Debug)]
pub struct ShaderPass {
    /// The vertex-stage part, if any.
    pub vertex_pass: Option<VertexPass>,
    /// The fragment-stage part, if any.
    pub fragment_pass: Option<FragmentPass>,
    /// The mesh-stage part, if any.
    pub mesh_pass: Option<MeshPass>,
}

/// A named shader parameter and the stages it is visible to.
#[derive(Debug)]
pub struct ShaderParameter {
    /// The stages the parameter is bound in.
    pub stages: Vec<ShaderStage>,
}

/// Collects named parameters and per-stage passes for shader assembly.
#[derive(Debug)]
pub struct ShaderGenerator {
    /// The declared parameters by name.
    pub parameters: HashMap<String, ShaderParameter>,
    /// The collected vertex passes, in push order.
    pub vertex_passes: Vec<VertexPass>,
    /// The collected fragment passes, in push order.
    pub fragment_passes: Vec<FragmentPass>,
    /// The collected mesh passes, in push order.
    pub mesh_passes: Vec<MeshPass>,
}

impl ShaderGenerator {
    /// An empty generator.
    pub fn new() -> (r: ShaderGenerator)
        ensures
            r.vertex_passes@.len() == 0,
            r.fragment_passes@.len() == 0,
            r.mesh_passes@.len() == 0,
    {
        ShaderGenerator {
            parameters: HashMap::new(),
            vertex_passes: Vec::new(),
            fragment_passes: Vec::new(),
            mesh_passes: Vec::new(),
        }
    }

    /// Files each stage part of a pass behind the parts collected for that
    /// stage; stages the pass does not touch keep their parts.
    pub fn push(&mut self, pass: ShaderPass)
        ensures
            match pass.vertex_pass {
                Some(v) => final(self).vertex_passes@ == old(self).vertex_passes@.push(v),
                None => final(self).vertex_passes == old(self).vertex_passes,
            },
            match pass.fragment_pass {
                Some(f) => final(self).fragment_passes@ == old(self).fragment_passes@.push(f),
                None => final(self).fragment_passes == old(self).fragment_passes,
            },
            match pass.mesh_pass {
                Some(m) => final(self).mesh_passes@ == old(self).mesh_passes@.push(m),
                None => final(self).mesh_passes == old(self).mesh_passes,
            },
            final(self).parameters == old(self).parameters,
    {
        let ShaderPass { vertex_pass, fragment_pass, mesh_pass } = pass;
        if let Some(vertex) = vertex_pass {
            self.vertex_passes.push(vertex);
        }
        if let Some(fragment) = fragment_pass {
            self.fragment_passes.push(fragment);
        }
        if let Some(mesh) = mesh_pass {
            self.mesh_passes.push(mesh);
        }
    }
}

} // verus!
