//! Rasterizing vector icons into alpha masks.  The renderer owns a
//! store of SVG assets; rendering parses the asset and rasterizes it,
//! scaled to the requested width, into one alpha byte per pixel.

use vstd::prelude::*;
use resvg::tiny_skia::Pixmap;
use resvg::tiny_skia::Transform;
use resvg::usvg::Options;
use resvg::usvg::Tree;

verus! {

/// A store of SVG assets, each under the path it is served at.  A
/// later entry for the same path replaces the earlier one.
pub struct AssetStore {
    entries: Vec<(String, Vec<u8>)>,
}

/// The assets an entry list holds: later entries win.
pub open spec fn map_of(entries: Seq<(String, Vec<u8>)>) -> Map<Seq<char>, Seq<u8>>
    decreases entries.len(),
{
    if entries.len() == 0 {
        Map::<Seq<char>, Seq<u8>>::empty()
    } else {
        map_of(entries.drop_last()).insert(entries.last().0@, entries.last().1@)
    }
}

impl View for AssetStore {
    type V = Map<Seq<char>, Seq<u8>>;

    closed spec fn view(&self) -> Map<Seq<char>, Seq<u8>> {
        map_of(self.entries@)
    }
}

impl AssetStore {
    /// An empty store.
    pub fn new() -> (r: Self)
        ensures
            r@ == Map::<Seq<char>, Seq<u8>>::empty(),
    {
        AssetStore { entries: Vec::new() }
    }

    /// Adds an asset, replacing any earlier one under the same path.
    pub fn add(&mut self, path: String, bytes: Vec<u8>)
        ensures
            final(self)@ == old(self)@.insert(path@, bytes@),
    {
        let ghost before = self.entries@;
        self.entries.push((path, bytes));
        proof {
            assert(self.entries@.drop_last() =~= before);
        }
    }

    /// The asset under `path`, if the store holds one.
    pub fn get(&self, path: &String) -> (r: Option<&Vec<u8>>)
        ensures
            (r is Some) <==> self@.contains_key(path@),
            r is Some ==> r->Some_0@ == self@[path@],
    {
        let mut i: usize = self.entries.len();
        proof {
            assert(self.entries@.take(self.entries@.len() as int) =~= self.entries@);
        }
        while i > 0
            invariant
                i <= self.entries@.len(),
                map_of(self.entries@).contains_key(path@) == map_of(
                    self.entries@.take(i as int),
                ).contains_key(path@),
                map_of(self.entries@).contains_key(path@) ==> map_of(
                    self.entries@.take(i as int),
                )[path@] == map_of(self.entries@)[path@],
            decreases i,
        {
            let k = i - 1;
            proof {
                assert(self.entries@.take(i as int).drop_last() =~= self.entries@.take(k as int));
                assert(self.entries@.take(i as int).last() == self.entries@[k as int]);
            }
            if self.entries[k].0.eq(path) {
                return Some(&self.entries[k].1);
            }
            i = k;
        }
        proof {
            assert(self.entries@.take(0) =~= Seq::<(String, Vec<u8>)>::empty());
        }
        None
    }
}

/// How rendering an icon can fail.
#[derive(Clone, Copy, PartialEq, Eq, Structural, Debug)]
pub enum RenderError {
    ZeroSize,
    AssetNotFound,
    InvalidSvg,
    RasterizeFailed,
}

/// What to render: which asset, at which size in device pixels.
pub struct RenderSvgParams {
    pub path: String,
    pub width: u32,
    pub height: u32,
}

impl RenderSvgParams {
    /// A render target with no extent cannot be rendered at.
    pub open spec fn spec_is_zero(self) -> bool {
        self.width == 0 || self.height == 0
    }

    /// Whether the requested size has no extent.
    pub fn is_zero(&self) -> (r: bool)
        ensures
            r == self.spec_is_zero(),
    {
        self.width == 0 || self.height == 0
    }
}

/// Whether `data` parses as an SVG document, with embedded images
/// resolved from data URLs only.  The parser decides this from the
/// bytes alone; an image reference it cannot resolve skips that
/// element rather than failing the parse.
pub uninterp spec fn svg_parse_ok(data: Seq<u8>) -> bool;

/// The alpha mask of the document `data` rasterized at `width`
/// device pixels, its height following the aspect ratio; `None` where
/// the scaled size is empty or too large for a bitmap.  With images
/// resolved from data URLs only, nothing outside the document is
/// read, so the mask is a function of the bytes and the width alone.
pub uninterp spec fn svg_alpha_mask(data: Seq<u8>, width: u32) -> Option<Seq<u8>>;

/// How the trusted rasterizer distinguishes its failures.
enum RasterFault {
    Parse,
    Size,
}

/// Relies on usvg::Tree::from_data, which parses SVG bytes and fails
/// exactly on malformed documents, and on tiny_skia and resvg::render,
/// which rasterize the parsed tree into a pixmap scaled to the
/// requested width (the scaled size comes from IntSize::scale_to_width,
/// which fails on a zero width) and expose one premultiplied pixel per
/// coordinate, of which the alpha byte is kept.  The default options
/// would resolve an image href as a path on disk, which would make the
/// result depend on the machine; the string resolver is replaced so
/// that only data URLs resolve and nothing is read from outside the
/// document.
#[verifier::external_body]
fn rasterize_svg(data: &[u8], width: u32) -> (r: Result<Vec<u8>, RasterFault>)
    ensures
        (r matches Err(f) && f == RasterFault::Parse) <==> !svg_parse_ok(data@),
        svg_parse_ok(data@) ==> ((r is Ok) <==> svg_alpha_mask(data@, width) is Some),
        r is Ok ==> r->Ok_0@ == svg_alpha_mask(data@, width)->Some_0,
        width == 0 ==> !(r is Ok),
{
    let mut opt = Options::default();
    opt.image_href_resolver.resolve_string = Box::new(|_, _| None);
    let tree = Tree::from_data(data, &opt).map_err(|_| RasterFault::Parse)?;
    let size = tree.size().to_int_size().scale_to_width(width).ok_or(RasterFault::Size)?;
    let mut pixmap = Pixmap::new(size.width(), size.height()).ok_or(RasterFault::Size)?;
    let ratio = size.to_size().width() / tree.size().width();
    resvg::render(&tree, Transform::from_scale(ratio, ratio), &mut pixmap.as_mut());
    Ok(pixmap.pixels().iter().map(|p| p.alpha()).collect())
}

/// Renders vector icons from an asset store into alpha masks.
pub struct SvgRenderer {
    asset_store: AssetStore,
}

impl View for SvgRenderer {
    type V = Map<Seq<char>, Seq<u8>>;

    closed spec fn view(&self) -> Map<Seq<char>, Seq<u8>> {
        self.asset_store@
    }
}

impl SvgRenderer {
    /// A renderer over the given assets.
    pub fn new(asset_store: AssetStore) -> (r: Self)
        ensures
            r@ == asset_store@,
    {
        SvgRenderer { asset_store }
    }

    /// Renders one icon as an alpha mask: the named asset is parsed
    /// and rasterized at the requested width.  Each failure is told
    /// apart: a zero-size request, a missing asset, bytes that do not
    /// parse, and a scaled size the rasterizer cannot serve.
    pub fn render(&self, params: &RenderSvgParams) -> (r: Result<Vec<u8>, RenderError>)
        ensures
            (r matches Err(e) && e == RenderError::ZeroSize) <==> params.spec_is_zero(),
            (r matches Err(e) && e == RenderError::AssetNotFound) <==> !params.spec_is_zero()
                && !self@.contains_key(params.path@),
            (r matches Err(e) && e == RenderError::InvalidSvg) <==> !params.spec_is_zero()
                && self@.contains_key(params.path@) && !svg_parse_ok(self@[params.path@]),
            (r is Ok) <==> !params.spec_is_zero() && self@.contains_key(params.path@)
                && svg_parse_ok(self@[params.path@]) && svg_alpha_mask(
                self@[params.path@],
                params.width,
            ) is Some,
            r is Ok ==> r->Ok_0@ == svg_alpha_mask(self@[params.path@], params.width)->Some_0,
    {
        if params.is_zero() {
            return Err(RenderError::ZeroSize);
        }
        let bytes = match self.asset_store.get(&params.path) {
            Some(bytes) => bytes,
            None => {
                return Err(RenderError::AssetNotFound);
            },
        };
        match rasterize_svg(bytes.as_slice(), params.width) {
            Ok(mask) => Ok(mask),
            Err(RasterFault::Parse) => Err(RenderError::InvalidSvg),
            Err(RasterFault::Size) => Err(RenderError::RasterizeFailed),
        }
    }
}

} // verus!
