//! Domain payload types carried through plans.
//!
//! These are inert data definitions: the runtime places no constraint on
//! them beyond a fixed field order and a total encoding.  The structured
//! ones implement the [`Value`] protocol by hand, each documenting its own
//! cell layout; an enumeration encodes as a single unsigned-integer cell
//! holding its variant's index.

use vstd::prelude::*;

use crate::error::{ExecutionError, ValueKind};
use crate::primitive::Primitive;
use crate::value::Value;

verus! {

/// What kind of cut to do.
#[derive(Debug, Clone, Copy, PartialEq, Eq, Structural, Default)]
pub enum CutType {
    /// Round off an edge.
    #[default]
    Fillet,
    /// Cut away an edge.
    Chamfer,
}

/// The global axes.
#[derive(Debug, Clone, Copy, PartialEq, Eq, Structural, PartialOrd, Ord, Hash)]
pub enum GlobalAxis {
    /// The X axis.
    X,
    /// The Y axis.
    Y,
    /// The Z axis.
    Z,
}

/// The type of distance.  Distances can vary depending on the objects used
/// as input.
#[derive(Debug, Clone, Copy, PartialEq, Eq, Structural)]
pub enum DistanceType {
    /// Euclidean distance.
    Euclidean {},
    /// The distance between objects along the specified axis.
    OnAxis {
        /// Global axis.
        axis: GlobalAxis,
    },
}

/// Horizontal text alignment.
#[derive(Debug, Clone, Copy, PartialEq, Eq, Structural, PartialOrd, Ord, Hash)]
pub enum AnnotationTextAlignmentX {
    /// Aligned to the left edge.
    Left,
    /// Centered horizontally.
    Center,
    /// Aligned to the right edge.
    Right,
}

/// Vertical text alignment.
#[derive(Debug, Clone, Copy, PartialEq, Eq, Structural, PartialOrd, Ord, Hash)]
pub enum AnnotationTextAlignmentY {
    /// Aligned to the bottom edge.
    Bottom,
    /// Centered vertically.
    Center,
    /// Aligned to the top edge.
    Top,
}

/// Annotation line end type.
#[derive(Debug, Clone, Copy, PartialEq, Eq, Structural, PartialOrd, Ord, Hash)]
pub enum AnnotationLineEnd {
    /// A bare line end.
    Bare,
    /// An arrow head.
    Arrow,
}

/// The type of annotation.
#[derive(Debug, Clone, Copy, PartialEq, Eq, Structural, PartialOrd, Ord, Hash)]
pub enum AnnotationType {
    /// 2D annotation type (screen or planar space).
    T2D,
    /// 3D annotation type.
    T3D,
}

/// The type of camera drag interaction.
#[derive(Debug, Clone, Copy, PartialEq, Eq, Structural, PartialOrd, Ord, Hash)]
pub enum CameraDragInteractionType {
    /// Camera pan.
    Pan,
    /// Camera rotate (revolve/orbit).
    Rotate,
    /// Camera zoom (increase or decrease distance to reference point center).
    Zoom,
}

/// The type of scene selection change.
#[derive(Debug, Clone, Copy, PartialEq, Eq, Structural, PartialOrd, Ord, Hash)]
pub enum SceneSelectionType {
    /// Replaces the selection.
    Replace,
    /// Adds to the selection.
    Add,
    /// Removes from the selection.
    Remove,
}

/// The type of the scene's active tool.
#[derive(Debug, Clone, Copy, PartialEq, Eq, Structural, PartialOrd, Ord, Hash)]
#[allow(missing_docs)]
pub enum SceneToolType {
    CameraRevolve,
    Select,
    Move,
    SketchLine,
    SketchTangentialArc,
    SketchCurve,
    SketchCurveMod,
}

/// The path component constraint bounds type.
#[derive(Debug, Clone, Copy, PartialEq, Eq, Structural, PartialOrd, Ord, Hash, Default)]
#[allow(missing_docs)]
pub enum PathComponentConstraintBound {
    #[default]
    Unconstrained,
    PartiallyConstrained,
    FullyConstrained,
}

/// The path component constraint type.
#[derive(Debug, Clone, Copy, PartialEq, Eq, Structural, PartialOrd, Ord, Hash, Default)]
#[allow(missing_docs)]
pub enum PathComponentConstraintType {
    #[default]
    Unconstrained,
    Vertical,
    Horizontal,
    EqualLength,
    Parallel,
    AngleBetween,
}

/// The path component command type (within a path).
#[derive(Debug, Clone, Copy, PartialEq, Eq, Structural, PartialOrd, Ord, Hash)]
#[allow(missing_docs)]
pub enum PathCommand {
    MoveTo,
    LineTo,
    BezCurveTo,
    NurbsCurveTo,
    AddArc,
}

/// The type of entity.
#[derive(Debug, Clone, Copy, PartialEq, Eq, Structural, PartialOrd, Ord, Hash)]
#[allow(missing_docs)]
pub enum EntityType {
    Entity,
    Object,
    Path,
    Curve,
    Solid2D,
    Solid3D,
    Edge,
    Face,
    Plane,
    Vertex,
}

/// The type of curve (embedded within a path).
#[derive(Debug, Clone, Copy, PartialEq, Eq, Structural, PartialOrd, Ord, Hash)]
#[allow(missing_docs)]
pub enum CurveType {
    Line,
    Arc,
    Nurbs,
}

/// The valid types of output file formats.
#[derive(Debug, Clone, Copy, PartialEq, Eq, Structural, PartialOrd, Ord, Hash)]
#[allow(missing_docs)]
pub enum FileExportFormat {
    Fbx,
    Glb,
    Gltf,
    Obj,
    Ply,
    Step,
    Stl,
}

/// The valid types of source file formats.
#[derive(Debug, Clone, Copy, PartialEq, Eq, Structural, PartialOrd, Ord, Hash)]
#[allow(missing_docs)]
pub enum FileImportFormat {
    Fbx,
    Gltf,
    Obj,
    Ply,
    Sldprt,
    Step,
    Stl,
}

/// The type of error sent by the graphics engine.
#[derive(Debug, Clone, Copy, PartialEq, Eq, Structural, PartialOrd, Ord, Hash)]
pub enum EngineErrorCode {
    /// The request was geometrically or graphically impossible; it is not
    /// worth retrying.
    BadRequest,
    /// The graphics engine failed to complete the request; retrying may
    /// help.
    InternalEngine,
}

/// Possible types of faces which can be extruded from a 3D solid.
#[derive(Debug, Clone, Copy, PartialEq, Eq, Structural, PartialOrd, Ord, Hash)]
pub enum ExtrusionFaceCapType {
    /// Uncapped.
    Uncapped,
    /// Capped on top.
    Top,
    /// Capped below.
    Bottom,
}

/// Post effect type.
#[derive(Debug, Clone, Copy, PartialEq, Eq, Structural, PartialOrd, Ord, Hash, Default)]
#[allow(missing_docs)]
pub enum PostEffectType {
    Phosphor,
    Ssao,
    #[default]
    NoEffect,
}

/// A point in 2D space.
#[derive(Debug, Clone, Copy, PartialEq, Default)]
pub struct Point2d<T> {
    #[allow(missing_docs)]
    pub x: T,
    #[allow(missing_docs)]
    pub y: T,
}

/// A point in 3D space.
#[derive(Debug, Clone, Copy, PartialEq, Default)]
pub struct Point3d<T> {
    #[allow(missing_docs)]
    pub x: T,
    #[allow(missing_docs)]
    pub y: T,
    #[allow(missing_docs)]
    pub z: T,
}

/// A point in homogeneous (4D) space.
#[derive(Debug, Clone, Copy, PartialEq)]
pub struct Point4d<T> {
    #[allow(missing_docs)]
    pub x: T,
    #[allow(missing_docs)]
    pub y: T,
    #[allow(missing_docs)]
    pub z: T,
    #[allow(missing_docs)]
    pub w: T,
}

impl<T> Point3d<T> {
    /// Add the given `z` component to a 2D point to produce a 3D point.
    pub fn from_2d(p: Point2d<T>, z: T) -> (r: Point3d<T>)
        ensures
            r.x == p.x,
            r.y == p.y,
            r.z == z,
    {
        let Point2d { x, y } = p;
        Point3d { x, y, z }
    }
}

impl<T> Point2d<T> {
    /// Add the given `z` component to this 2D point to produce a 3D point.
    pub fn with_z(self, z: T) -> (r: Point3d<T>)
        ensures
            r.x == self.x,
            r.y == self.y,
            r.z == z,
    {
        let Point2d { x, y } = self;
        Point3d { x, y, z }
    }
}

/// A file to be exported to the client.
#[derive(Debug, Clone, PartialEq)]
pub struct ExportFile {
    /// The name of the file.
    pub name: String,
    /// The contents of the file.
    pub contents: Vec<u8>,
}

/// Options for the styling of an annotation's line ends.
#[derive(Debug, Clone, Copy, PartialEq, Eq, Structural)]
pub struct AnnotationLineEndOptions {
    /// How to style the start of the annotation line.
    pub start: AnnotationLineEnd,
    /// How to style the end of the annotation line.
    pub end: AnnotationLineEnd,
}

/// Options for annotation text.
#[derive(Debug, Clone, PartialEq)]
pub struct AnnotationTextOptions {
    /// Alignment along the X axis.
    pub x: AnnotationTextAlignmentX,
    /// Alignment along the Y axis.
    pub y: AnnotationTextAlignmentY,
    /// Text displayed on the annotation.
    pub text: String,
    /// Text font's point size.
    pub point_size: u32,
}

impl AnnotationLineEnd {
    /// The variant's index in declaration order.
    pub open spec fn code_spec(&self) -> u64 {
        match self {
            AnnotationLineEnd::Bare => 0,
            AnnotationLineEnd::Arrow => 1,
        }
    }
}

impl Value for AnnotationLineEnd {
    /// A line end occupies one unsigned-integer cell holding its variant's
    /// index.
    open spec fn enc(&self) -> Seq<Primitive> {
        seq![Primitive::UInt(self.code_spec())]
    }

    open spec fn dec(values: Seq<Option<Primitive>>) -> Result<
        (AnnotationLineEnd, int),
        ExecutionError,
    > {
        if values.len() < 1 {
            Err(ExecutionError::MemoryWrongSize { expected: 1 })
        } else {
            match values[0] {
                Some(Primitive::UInt(c)) => if c == 0 {
                    Ok((AnnotationLineEnd::Bare, 1))
                } else if c == 1 {
                    Ok((AnnotationLineEnd::Arrow, 1))
                } else {
                    Err(
                        ExecutionError::MemoryWrongType {
                            expected: ValueKind::UInt,
                            actual: Primitive::UInt(c),
                        },
                    )
                },
                Some(other) => Err(
                    ExecutionError::MemoryWrongType { expected: ValueKind::UInt, actual: other },
                ),
                None => Err(ExecutionError::MemoryWrongSize { expected: 1 }),
            }
        }
    }

    fn into_parts(self) -> (r: Vec<Primitive>) {
        let ghost v = self;
        let code: u64 = match self {
            AnnotationLineEnd::Bare => 0,
            AnnotationLineEnd::Arrow => 1,
        };
        let mut parts = Vec::new();
        parts.push(Primitive::UInt(code));
        proof {
            assert(parts@ =~= v.enc());
        }
        parts
    }

    fn from_parts(values: &[Option<Primitive>]) -> (r: Result<
        (AnnotationLineEnd, usize),
        ExecutionError,
    >) {
        if values.len() < 1 {
            Err(ExecutionError::MemoryWrongSize { expected: 1 })
        } else {
            match &values[0] {
                Some(Primitive::UInt(c)) => if *c == 0 {
                    Ok((AnnotationLineEnd::Bare, 1))
                } else if *c == 1 {
                    Ok((AnnotationLineEnd::Arrow, 1))
                } else {
                    Err(
                        ExecutionError::MemoryWrongType {
                            expected: ValueKind::UInt,
                            actual: Primitive::UInt(*c),
                        },
                    )
                },
                Some(other) => Err(
                    ExecutionError::MemoryWrongType {
                        expected: ValueKind::UInt,
                        actual: other.duplicate(),
                    },
                ),
                None => Err(ExecutionError::MemoryWrongSize { expected: 1 }),
            }
        }
    }

    proof fn lemma_round_trip(v: AnnotationLineEnd, values: Seq<Option<Primitive>>) {
    }
}

impl AnnotationTextAlignmentX {
    /// The variant's index in declaration order.
    pub open spec fn code_spec(&self) -> u64 {
        match self {
            AnnotationTextAlignmentX::Left => 0,
            AnnotationTextAlignmentX::Center => 1,
            AnnotationTextAlignmentX::Right => 2,
        }
    }
}

impl Value for AnnotationTextAlignmentX {
    /// A horizontal alignment occupies one unsigned-integer cell holding
    /// its variant's index.
    open spec fn enc(&self) -> Seq<Primitive> {
        seq![Primitive::UInt(self.code_spec())]
    }

    open spec fn dec(values: Seq<Option<Primitive>>) -> Result<
        (AnnotationTextAlignmentX, int),
        ExecutionError,
    > {
        if values.len() < 1 {
            Err(ExecutionError::MemoryWrongSize { expected: 1 })
        } else {
            match values[0] {
                Some(Primitive::UInt(c)) => if c == 0 {
                    Ok((AnnotationTextAlignmentX::Left, 1))
                } else if c == 1 {
                    Ok((AnnotationTextAlignmentX::Center, 1))
                } else if c == 2 {
                    Ok((AnnotationTextAlignmentX::Right, 1))
                } else {
                    Err(
                        ExecutionError::MemoryWrongType {
                            expected: ValueKind::UInt,
                            actual: Primitive::UInt(c),
                        },
                    )
                },
                Some(other) => Err(
                    ExecutionError::MemoryWrongType { expected: ValueKind::UInt, actual: other },
                ),
                None => Err(ExecutionError::MemoryWrongSize { expected: 1 }),
            }
        }
    }

    fn into_parts(self) -> (r: Vec<Primitive>) {
        let ghost v = self;
        let code: u64 = match self {
            AnnotationTextAlignmentX::Left => 0,
            AnnotationTextAlignmentX::Center => 1,
            AnnotationTextAlignmentX::Right => 2,
        };
        let mut parts = Vec::new();
        parts.push(Primitive::UInt(code));
        proof {
            assert(parts@ =~= v.enc());
        }
        parts
    }

    fn from_parts(values: &[Option<Primitive>]) -> (r: Result<
        (AnnotationTextAlignmentX, usize),
        ExecutionError,
    >) {
        if values.len() < 1 {
            Err(ExecutionError::MemoryWrongSize { expected: 1 })
        } else {
            match &values[0] {
                Some(Primitive::UInt(c)) => if *c == 0 {
                    Ok((AnnotationTextAlignmentX::Left, 1))
                } else if *c == 1 {
                    Ok((AnnotationTextAlignmentX::Center, 1))
                } else if *c == 2 {
                    Ok((AnnotationTextAlignmentX::Right, 1))
                } else {
                    Err(
                        ExecutionError::MemoryWrongType {
                            expected: ValueKind::UInt,
                            actual: Primitive::UInt(*c),
                        },
                    )
                },
                Some(other) => Err(
                    ExecutionError::MemoryWrongType {
                        expected: ValueKind::UInt,
                        actual: other.duplicate(),
                    },
                ),
                None => Err(ExecutionError::MemoryWrongSize { expected: 1 }),
            }
        }
    }

    proof fn lemma_round_trip(v: AnnotationTextAlignmentX, values: Seq<Option<Primitive>>) {
    }
}

impl AnnotationTextAlignmentY {
    /// The variant's index in declaration order.
    pub open spec fn code_spec(&self) -> u64 {
        match self {
            AnnotationTextAlignmentY::Bottom => 0,
            AnnotationTextAlignmentY::Center => 1,
            AnnotationTextAlignmentY::Top => 2,
        }
    }
}

impl Value for AnnotationTextAlignmentY {
    /// A vertical alignment occupies one unsigned-integer cell holding its
    /// variant's index.
    open spec fn enc(&self) -> Seq<Primitive> {
        seq![Primitive::UInt(self.code_spec())]
    }

    open spec fn dec(values: Seq<Option<Primitive>>) -> Result<
        (AnnotationTextAlignmentY, int),
        ExecutionError,
    > {
        if values.len() < 1 {
            Err(ExecutionError::MemoryWrongSize { expected: 1 })
        } else {
            match values[0] {
                Some(Primitive::UInt(c)) => if c == 0 {
                    Ok((AnnotationTextAlignmentY::Bottom, 1))
                } else if c == 1 {
                    Ok((AnnotationTextAlignmentY::Center, 1))
                } else if c == 2 {
                    Ok((AnnotationTextAlignmentY::Top, 1))
                } else {
                    Err(
                        ExecutionError::MemoryWrongType {
                            expected: ValueKind::UInt,
                            actual: Primitive::UInt(c),
                        },
                    )
                },
                Some(other) => Err(
                    ExecutionError::MemoryWrongType { expected: ValueKind::UInt, actual: other },
                ),
                None => Err(ExecutionError::MemoryWrongSize { expected: 1 }),
            }
        }
    }

    fn into_parts(self) -> (r: Vec<Primitive>) {
        let ghost v = self;
        let code: u64 = match self {
            AnnotationTextAlignmentY::Bottom => 0,
            AnnotationTextAlignmentY::Center => 1,
            AnnotationTextAlignmentY::Top => 2,
        };
        let mut parts = Vec::new();
        parts.push(Primitive::UInt(code));
        proof {
            assert(parts@ =~= v.enc());
        }
        parts
    }

    fn from_parts(values: &[Option<Primitive>]) -> (r: Result<
        (AnnotationTextAlignmentY, usize),
        ExecutionError,
    >) {
        if values.len() < 1 {
            Err(ExecutionError::MemoryWrongSize { expected: 1 })
        } else {
            match &values[0] {
                Some(Primitive::UInt(c)) => if *c == 0 {
                    Ok((AnnotationTextAlignmentY::Bottom, 1))
                } else if *c == 1 {
                    Ok((AnnotationTextAlignmentY::Center, 1))
                } else if *c == 2 {
                    Ok((AnnotationTextAlignmentY::Top, 1))
                } else {
                    Err(
                        ExecutionError::MemoryWrongType {
                            expected: ValueKind::UInt,
                            actual: Primitive::UInt(*c),
                        },
                    )
                },
                Some(other) => Err(
                    ExecutionError::MemoryWrongType {
                        expected: ValueKind::UInt,
                        actual: other.duplicate(),
                    },
                ),
                None => Err(ExecutionError::MemoryWrongSize { expected: 1 }),
            }
        }
    }

    proof fn lemma_round_trip(v: AnnotationTextAlignmentY, values: Seq<Option<Primitive>>) {
    }
}

impl Value for AnnotationLineEndOptions {
    /// Two cells: the start style, then the end style, each one cell.
    open spec fn enc(&self) -> Seq<Primitive> {
        self.start.enc() + self.end.enc()
    }

    open spec fn dec(values: Seq<Option<Primitive>>) -> Result<
        (AnnotationLineEndOptions, int),
        ExecutionError,
    > {
        if values.len() < 2 {
            Err(ExecutionError::MemoryWrongSize { expected: 2 })
        } else {
            match AnnotationLineEnd::dec(values) {
                Err(e) => Err(e),
                Ok((start, n1)) => match AnnotationLineEnd::dec(values.skip(n1)) {
                    Err(e) => Err(e),
                    Ok((end, n2)) => Ok((AnnotationLineEndOptions { start, end }, n1 + n2)),
                },
            }
        }
    }

    fn into_parts(self) -> (r: Vec<Primitive>) {
        let ghost v = self;
        let mut parts = self.start.into_parts();
        let mut tail = self.end.into_parts();
        parts.append(&mut tail);
        proof {
            assert(parts@ =~= v.enc());
        }
        parts
    }

    fn from_parts(values: &[Option<Primitive>]) -> (r: Result<
        (AnnotationLineEndOptions, usize),
        ExecutionError,
    >) {
        if values.len() < 2 {
            return Err(ExecutionError::MemoryWrongSize { expected: 2 });
        }
        let (start, n1) = match AnnotationLineEnd::from_parts(values) {
            Ok(p) => p,
            Err(e) => {
                return Err(e);
            },
        };
        let rest = vstd::slice::slice_subrange(values, n1, values.len());
        proof {
            assert(rest@ =~= values@.skip(n1 as int));
        }
        let (end, n2) = match AnnotationLineEnd::from_parts(rest) {
            Ok(p) => p,
            Err(e) => {
                return Err(e);
            },
        };
        Ok((AnnotationLineEndOptions { start, end }, n1 + n2))
    }

    proof fn lemma_round_trip(v: AnnotationLineEndOptions, values: Seq<Option<Primitive>>) {
        AnnotationLineEnd::lemma_round_trip(v.start, values);
        assert forall|i: int| 0 <= i < v.end.enc().len() implies values.skip(1)[i] == Some(
            v.end.enc()[i],
        ) by {
            assert(values[i + 1] == Some(v.enc()[i + 1]));
        }
        AnnotationLineEnd::lemma_round_trip(v.end, values.skip(1));
    }
}

impl Value for AnnotationTextOptions {
    /// Four cells: the horizontal alignment, the vertical alignment, the
    /// text as one text cell, and the point size as one unsigned-integer
    /// cell.
    open spec fn enc(&self) -> Seq<Primitive> {
        self.x.enc() + self.y.enc() + seq![
            Primitive::Text(self.text),
            Primitive::UInt(self.point_size as u64),
        ]
    }

    open spec fn dec(values: Seq<Option<Primitive>>) -> Result<
        (AnnotationTextOptions, int),
        ExecutionError,
    > {
        if values.len() < 4 {
            Err(ExecutionError::MemoryWrongSize { expected: 4 })
        } else {
            match AnnotationTextAlignmentX::dec(values) {
                Err(e) => Err(e),
                Ok((x, n1)) => match AnnotationTextAlignmentY::dec(values.skip(n1)) {
                    Err(e) => Err(e),
                    Ok((y, n2)) => match values[n1 + n2] {
                        Some(Primitive::Text(text)) => match values[n1 + n2 + 1] {
                            Some(Primitive::UInt(c)) => if c <= u32::MAX {
                                Ok(
                                    (
                                        AnnotationTextOptions {
                                            x,
                                            y,
                                            text,
                                            point_size: c as u32,
                                        },
                                        n1 + n2 + 2,
                                    ),
                                )
                            } else {
                                Err(
                                    ExecutionError::MemoryWrongType {
                                        expected: ValueKind::UInt,
                                        actual: Primitive::UInt(c),
                                    },
                                )
                            },
                            Some(other) => Err(
                                ExecutionError::MemoryWrongType {
                                    expected: ValueKind::UInt,
                                    actual: other,
                                },
                            ),
                            None => Err(ExecutionError::MemoryWrongSize { expected: 1 }),
                        },
                        Some(other) => Err(
                            ExecutionError::MemoryWrongType {
                                expected: ValueKind::Text,
                                actual: other,
                            },
                        ),
                        None => Err(ExecutionError::MemoryWrongSize { expected: 1 }),
                    },
                },
            }
        }
    }

    fn into_parts(self) -> (r: Vec<Primitive>) {
        let ghost v = self;
        let mut parts = self.x.into_parts();
        let mut tail = self.y.into_parts();
        parts.append(&mut tail);
        parts.push(Primitive::Text(self.text));
        parts.push(Primitive::UInt(self.point_size as u64));
        proof {
            assert(parts@ =~= v.enc());
        }
        parts
    }

    fn from_parts(values: &[Option<Primitive>]) -> (r: Result<
        (AnnotationTextOptions, usize),
        ExecutionError,
    >) {
        if values.len() < 4 {
            return Err(ExecutionError::MemoryWrongSize { expected: 4 });
        }
        let (x, n1) = match AnnotationTextAlignmentX::from_parts(values) {
            Ok(p) => p,
            Err(e) => {
                return Err(e);
            },
        };
        let rest = vstd::slice::slice_subrange(values, n1, values.len());
        proof {
            assert(rest@ =~= values@.skip(n1 as int));
        }
        let (y, n2) = match AnnotationTextAlignmentY::from_parts(rest) {
            Ok(p) => p,
            Err(e) => {
                return Err(e);
            },
        };
        let text = match &values[n1 + n2] {
            Some(Primitive::Text(s)) => s.clone(),
            Some(other) => {
                return Err(
                    ExecutionError::MemoryWrongType {
                        expected: ValueKind::Text,
                        actual: other.duplicate(),
                    },
                );
            },
            None => {
                return Err(ExecutionError::MemoryWrongSize { expected: 1 });
            },
        };
        let point_size = match &values[n1 + n2 + 1] {
            Some(Primitive::UInt(c)) => if *c <= u32::MAX as u64 {
                *c as u32
            } else {
                return Err(
                    ExecutionError::MemoryWrongType {
                        expected: ValueKind::UInt,
                        actual: Primitive::UInt(*c),
                    },
                );
            },
            Some(other) => {
                return Err(
                    ExecutionError::MemoryWrongType {
                        expected: ValueKind::UInt,
                        actual: other.duplicate(),
                    },
                );
            },
            None => {
                return Err(ExecutionError::MemoryWrongSize { expected: 1 });
            },
        };
        Ok((AnnotationTextOptions { x, y, text, point_size }, n1 + n2 + 2))
    }

    proof fn lemma_round_trip(v: AnnotationTextOptions, values: Seq<Option<Primitive>>) {
        AnnotationTextAlignmentX::lemma_round_trip(v.x, values);
        assert forall|i: int| 0 <= i < v.y.enc().len() implies values.skip(1)[i] == Some(
            v.y.enc()[i],
        ) by {
            assert(values[i + 1] == Some(v.enc()[i + 1]));
        }
        AnnotationTextAlignmentY::lemma_round_trip(v.y, values.skip(1));
        assert(values[2] == Some(v.enc()[2]));
        assert(values[3] == Some(v.enc()[3]));
    }
}

} // verus!
