//! Shape descriptors and the value types they are built from.
//!
//! Positions are whole viewport pixels, relative to the centre of the window.
//! Texture coordinates are fixed-point: `UV_ONE` stands for 1.0.
use vstd::prelude::*;

pub mod point2d;

verus! {

/// The fixed-point value of texture coordinate 1.0.
pub const UV_ONE: u32 = 65536;

/// The largest number of vertices that 16-bit indices can address.
pub const MAX_INDEXED_VERTICES: usize = 65536;

/// One corner of a shape: a position and a texture coordinate.
#[derive(Debug, Clone, Copy, PartialEq, Eq, Structural)]
pub struct Vertex2D {
    pub x: i32,
    pub y: i32,
    pub u: u32,
    pub v: u32,
}

impl Vertex2D {
    /// A vertex at pixel position `(x, y)` with texture coordinate `(u, v)`.
    pub fn new(x: i32, y: i32, u: u32, v: u32) -> (r: Vertex2D)
        ensures
            r == (Vertex2D { x, y, u, v }),
    {
        Vertex2D { x, y, u, v }
    }
}

/// Whether a colour channel lies in `[0, 255]`.
pub open spec fn valid_channel(c: i32) -> bool {
    0 <= c <= 255
}

/// A colour: red, green and blue in `[0, 255]`, and an alpha component that
/// is passed through unchecked.
#[derive(Debug, Clone, Copy, PartialEq, Eq, Structural)]
pub struct Color {
    r: i32,
    g: i32,
    b: i32,
    alpha: i32,
}

impl Color {
    /// The components in the order red, green, blue, alpha.
    pub closed spec fn components(&self) -> Seq<i32> {
        seq![self.r, self.g, self.b, self.alpha]
    }

    pub closed spec fn wf(&self) -> bool {
        valid_channel(self.r) && valid_channel(self.g) && valid_channel(self.b)
    }

    /// The result of `new` on these components.
    pub closed spec fn spec_new(r: i32, g: i32, b: i32, alpha: i32) -> Option<Color> {
        if valid_channel(r) && valid_channel(g) && valid_channel(b) {
            Some(Color { r, g, b, alpha })
        } else {
            None
        }
    }

    /// A colour from its components; none when red, green or blue lies
    /// outside `[0, 255]`. Alpha is not checked.
    pub fn new(r: i32, g: i32, b: i32, alpha: i32) -> (res: Option<Color>)
        ensures
            res == Color::spec_new(r, g, b, alpha),
            res is Some <==> (valid_channel(r) && valid_channel(g) && valid_channel(b)),
            res matches Some(c) ==> c.components() == seq![r, g, b, alpha] && c.wf(),
    {
        if r > 255 || g > 255 || b > 255 {
            None
        } else if r < 0 || g < 0 || b < 0 {
            None
        } else {
            Some(Color { r, g, b, alpha })
        }
    }

    pub closed spec fn new_spec_black() -> Color {
        Color { r: 0, g: 0, b: 0, alpha: 1 }
    }

    /// Opaque black.
    pub fn black() -> (r: Color)
        ensures
            r == Color::new_spec_black(),
            r.components() == seq![0i32, 0i32, 0i32, 1i32],
    {
        Color { r: 0, g: 0, b: 0, alpha: 1 }
    }

    /// The components given at construction, in order.
    pub fn get_rgb_value(&self) -> (res: [i32; 4])
        ensures
            res@ == self.components(),
    {
        let res = [self.r, self.g, self.b, self.alpha];
        assert(res@ =~= self.components());
        res
    }
}

/// A reference to a texture that the embedding application holds.
#[derive(Debug, Clone, Copy, PartialEq, Eq, Structural)]
pub struct Texture {
    pub id: u32,
}

/// Whether an RGBA image of `width` by `height` pixels held in `len` bytes can
/// become a 2D texture: both sides fit 16 bits and there are four bytes per
/// pixel.
pub open spec fn texture_fits(width: u32, height: u32, len: usize) -> bool {
    width <= 0xFFFF && height <= 0xFFFF && len as int == 4 * width * height
}

/// The 16-bit extent of a texture made from a decoded RGBA image, or none
/// when the image does not fit a 2D texture or its pixel data has the wrong
/// size.
pub fn texture_extent(width: u32, height: u32, pixels: &Vec<u8>) -> (r: Option<(u16, u16)>)
    ensures
        r is Some <==> texture_fits(width, height, pixels.len()),
        r matches Some(e) ==> e.0 == width && e.1 == height,
{
    if width > 0xFFFF || height > 0xFFFF {
        return None;
    }
    assert((width as int) * (height as int) <= 0xFFFF * 0xFFFF) by (nonlinear_arith)
        requires
            width <= 0xFFFF,
            height <= 0xFFFF,
    ;
    let area: u64 = width as u64 * height as u64;
    assert(4 * (area as int) == 4 * width * height) by (nonlinear_arith)
        requires
            area as int == (width as int) * (height as int),
    ;
    if pixels.len() as u64 != 4 * area {
        return None;
    }
    Some((width as u16, height as u16))
}

/// Whether `indices` lists whole triangles over `n` vertices.
pub open spec fn triangle_list(indices: Seq<u16>, n: nat) -> bool {
    &&& indices.len() % 3 == 0
    &&& forall|i: int| 0 <= i < indices.len() ==> (#[trigger] indices[i] as nat) < n
}

/// Drawable geometry: an ordered list of vertices, how they form triangles,
/// and an optional colour and texture.
pub trait Shape {
    /// The shape's vertices, in the order they were authored.
    spec fn shape_vertices(&self) -> Seq<Vertex2D>;

    /// The shape's triangles, as indices into its own vertices.
    spec fn shape_indices(&self) -> Seq<u16>;

    spec fn shape_color(&self) -> Option<Color>;

    spec fn shape_texture(&self) -> Option<Texture>;

    fn vertices(&self) -> (r: Vec<Vertex2D>)
        ensures
            r@ == self.shape_vertices(),
            r@.len() <= MAX_INDEXED_VERTICES,
    ;

    fn indices(&self) -> (r: Vec<u16>)
        ensures
            r@ == self.shape_indices(),
            triangle_list(r@, self.shape_vertices().len()),
    ;

    fn color(&self) -> (r: &Option<Color>)
        ensures
            *r == self.shape_color(),
    ;

    fn texture(&self) -> (r: &Option<Texture>)
        ensures
            *r == self.shape_texture(),
    ;
}

/// A triangle: exactly three vertices, fixed at construction.
#[derive(Debug, Clone, Copy)]
pub struct Triangle {
    vertices: [Vertex2D; 3],
    color: Option<Color>,
    texture: Option<Texture>,
}

impl Triangle {
    /// A triangle with corners `v1`, `v2`, `v3`, in that order.
    pub fn new(
        v1: Vertex2D,
        v2: Vertex2D,
        v3: Vertex2D,
        color: Option<Color>,
        texture: Option<Texture>,
    ) -> (r: Triangle)
        ensures
            r.shape_vertices() == seq![v1, v2, v3],
            r.shape_color() == color,
            r.shape_texture() == texture,
    {
        let t = Triangle { vertices: [v1, v2, v3], color, texture };
        assert(t.vertices@ =~= seq![v1, v2, v3]);
        t
    }
}

impl Shape for Triangle {
    closed spec fn shape_vertices(&self) -> Seq<Vertex2D> {
        self.vertices@
    }

    open spec fn shape_indices(&self) -> Seq<u16> {
        seq![0u16, 1u16, 2u16]
    }

    closed spec fn shape_color(&self) -> Option<Color> {
        self.color
    }

    closed spec fn shape_texture(&self) -> Option<Texture> {
        self.texture
    }

    fn vertices(&self) -> (r: Vec<Vertex2D>) {
        let mut v: Vec<Vertex2D> = Vec::with_capacity(3);
        v.push(self.vertices[0]);
        v.push(self.vertices[1]);
        v.push(self.vertices[2]);
        assert(v@ =~= self.vertices@);
        v
    }

    fn indices(&self) -> (r: Vec<u16>) {
        let r = vec![0u16, 1u16, 2u16];
        assert(r@ =~= seq![0u16, 1u16, 2u16]);
        r
    }

    fn color(&self) -> (r: &Option<Color>) {
        &self.color
    }

    fn texture(&self) -> (r: &Option<Texture>) {
        &self.texture
    }
}

/// A quadrilateral drawn as two triangles, first `0, 1, 2` then `2, 3, 0`.
#[derive(Debug, Clone, Copy)]
pub struct Quad {
    vertices: [Vertex2D; 4],
    color: Option<Color>,
    texture: Option<Texture>,
}

impl Quad {
    /// A quadrilateral with corners `v1` to `v4`, in winding order.
    pub fn new(
        v1: Vertex2D,
        v2: Vertex2D,
        v3: Vertex2D,
        v4: Vertex2D,
        color: Option<Color>,
        texture: Option<Texture>,
    ) -> (r: Quad)
        ensures
            r.shape_vertices() == seq![v1, v2, v3, v4],
            r.shape_color() == color,
            r.shape_texture() == texture,
    {
        let q = Quad { vertices: [v1, v2, v3, v4], color, texture };
        assert(q.vertices@ =~= seq![v1, v2, v3, v4]);
        q
    }
}

impl Shape for Quad {
    closed spec fn shape_vertices(&self) -> Seq<Vertex2D> {
        self.vertices@
    }

    open spec fn shape_indices(&self) -> Seq<u16> {
        seq![0u16, 1u16, 2u16, 2u16, 3u16, 0u16]
    }

    closed spec fn shape_color(&self) -> Option<Color> {
        self.color
    }

    closed spec fn shape_texture(&self) -> Option<Texture> {
        self.texture
    }

    fn vertices(&self) -> (r: Vec<Vertex2D>) {
        let mut v: Vec<Vertex2D> = Vec::with_capacity(4);
        v.push(self.vertices[0]);
        v.push(self.vertices[1]);
        v.push(self.vertices[2]);
        v.push(self.vertices[3]);
        assert(v@ =~= self.vertices@);
        v
    }

    fn indices(&self) -> (r: Vec<u16>) {
        let r = vec![0u16, 1u16, 2u16, 2u16, 3u16, 0u16];
        assert(r@ =~= seq![0u16, 1u16, 2u16, 2u16, 3u16, 0u16]);
        r
    }

    fn color(&self) -> (r: &Option<Color>) {
        &self.color
    }

    fn texture(&self) -> (r: &Option<Texture>) {
        &self.texture
    }
}

/// Every red, green and blue in `[0, 255]` gives a colour, whatever the alpha,
/// and the colour hands back exactly the four components, in order.
pub proof fn lemma_valid_color_round_trip(r: i32, g: i32, b: i32, alpha: i32)
    requires
        valid_channel(r),
        valid_channel(g),
        valid_channel(b),
    ensures
        Color::spec_new(r, g, b, alpha) is Some,
        Color::spec_new(r, g, b, alpha)->Some_0.components() == seq![r, g, b, alpha],
{
}

/// A red, green or blue below 0 or above 255 gives no colour.
pub proof fn lemma_out_of_range_color_refused(r: i32, g: i32, b: i32, alpha: i32)
    requires
        !valid_channel(r) || !valid_channel(g) || !valid_channel(b),
    ensures
        Color::spec_new(r, g, b, alpha) is None,
{
}

/// A triangle always has exactly three vertices.
pub proof fn lemma_triangle_has_three_vertices(t: Triangle)
    ensures
        t.shape_vertices().len() == 3,
{
}

} // verus!
