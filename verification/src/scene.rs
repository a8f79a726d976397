//! The scene's fixed shape list and the naming scheme its shader uses for
//! per-shape uniforms: shape `i`'s field `f` lives in `objects[i].f`.
use vstd::prelude::*;
use vstd::string::StringExecFns;

verus! {

/// Number of shape descriptors the scene draws: a cube and a sphere.
pub const SHAPE_COUNT: usize = 2;

/// The kinds of shape the scene's shader can raymarch.
#[derive(PartialEq, Eq, Structural, Clone, Copy, Debug)]
pub enum ShapeKind {
    Cube,
    Sphere,
}

/// The integer tag a shape kind is written to the shader as: cubes are 0,
/// spheres are 1.
pub open spec fn kind_tag_spec(k: ShapeKind) -> i32 {
    match k {
        ShapeKind::Cube => 0,
        ShapeKind::Sphere => 1,
    }
}

impl ShapeKind {
    /// The integer tag the shader's `shape` uniform expects for this kind.
    pub fn tag(self) -> (t: i32)
        ensures
            t == kind_tag_spec(self),
    {
        match self {
            ShapeKind::Cube => 0,
            ShapeKind::Sphere => 1,
        }
    }
}

/// The scene's fixed shape list: a cube, then a sphere.
pub open spec fn scene_kinds_spec() -> Seq<ShapeKind> {
    seq![ShapeKind::Cube, ShapeKind::Sphere]
}

/// The kind of the scene's shape at `index`.
pub fn scene_shape_kind(index: usize) -> (k: ShapeKind)
    requires
        index < SHAPE_COUNT,
    ensures
        k == scene_kinds_spec()[index as int],
{
    if index == 0 {
        ShapeKind::Cube
    } else {
        ShapeKind::Sphere
    }
}

/// The per-shape uniform fields the shader declares on each list entry.
#[derive(PartialEq, Eq, Structural, Clone, Copy, Debug)]
pub enum ShapeField {
    Position,
    Size,
    Color,
    Kind,
}

/// The field's name inside the shader's shape record; the kind tag is
/// declared there under the name `shape`.
pub open spec fn field_name_spec(f: ShapeField) -> Seq<char> {
    match f {
        ShapeField::Position => "position"@,
        ShapeField::Size => "size"@,
        ShapeField::Color => "color"@,
        ShapeField::Kind => "shape"@,
    }
}

impl ShapeField {
    /// The field's name inside the shader's shape record.
    pub fn name(self) -> (r: &'static str)
        ensures
            r@ == field_name_spec(self),
    {
        match self {
            ShapeField::Position => "position",
            ShapeField::Size => "size",
            ShapeField::Color => "color",
            ShapeField::Kind => "shape",
        }
    }
}

/// The decimal digit character for `d`.
pub open spec fn digit_char(d: int) -> char {
    if d == 0 {
        '0'
    } else if d == 1 {
        '1'
    } else if d == 2 {
        '2'
    } else if d == 3 {
        '3'
    } else if d == 4 {
        '4'
    } else if d == 5 {
        '5'
    } else if d == 6 {
        '6'
    } else if d == 7 {
        '7'
    } else if d == 8 {
        '8'
    } else {
        '9'
    }
}

fn digit_str(d: usize) -> (r: &'static str)
    requires
        d < 10,
    ensures
        r@ == seq![digit_char(d as int)],
{
    let r = match d {
        0 => "0",
        1 => "1",
        2 => "2",
        3 => "3",
        4 => "4",
        5 => "5",
        6 => "6",
        7 => "7",
        8 => "8",
        _ => "9",
    };
    proof {
        reveal_strlit("0");
        reveal_strlit("1");
        reveal_strlit("2");
        reveal_strlit("3");
        reveal_strlit("4");
        reveal_strlit("5");
        reveal_strlit("6");
        reveal_strlit("7");
        reveal_strlit("8");
        reveal_strlit("9");
        assert(r@ =~= seq![digit_char(d as int)]);
    }
    r
}

/// The uniform name addressing shape `index`'s field `f` in the shader:
/// `objects[<index>].<field>`.
pub open spec fn object_uniform_name_spec(index: int, f: ShapeField) -> Seq<char> {
    "objects["@ + seq![digit_char(index)] + "]."@ + field_name_spec(f)
}

/// Builds the uniform name under which the shader reads shape `index`'s
/// field `f`, for the single-digit indices the scene's shape list can hold.
pub fn object_uniform_name(index: usize, f: ShapeField) -> (r: String)
    requires
        index < 10,
    ensures
        r@ == object_uniform_name_spec(index as int, f),
{
    let mut s: String = "objects[".to_owned();
    s.append(digit_str(index));
    s.append("].");
    s.append(f.name());
    proof {
        assert(s@ =~= object_uniform_name_spec(index as int, f));
    }
    s
}

} // verus!
