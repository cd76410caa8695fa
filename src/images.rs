//! Render planning: which overlays are layered over a portrait, in which
//! order, and where each line of text is drawn.
use vstd::prelude::*;

use crate::assets::{border_name, gradient_name, valid_line_count, valid_rarity, Border, Gradient};
use crate::text::{fits_on_one_line, lines_view, trim_end_spaces, wrap_text, wrapped_lines, WRAPPED_WIDTH};

verus! {

/// Why a portrait could not be rendered.
#[derive(Debug, PartialEq, Eq)]
pub enum ImageError {
    /// The base portrait at this path could not be loaded.
    IdentityNotFound(String),
    /// The gradient overlay at this path could not be loaded.
    TextShadowNotFound(String),
    /// The border overlay at this path could not be loaded.
    RarityNotFound(String),
    /// The title wraps to more than two lines.
    TextTooLong,
    /// The rarity level is outside 1 to 3.
    BadRarityLevel(i32),
}

/// Width and height of every layer of a portrait.
pub const IMAGE_SIZE: i32 = 600;

/// Height of the font, in pixels.
pub const FONT_SIZE: i32 = 50;

/// Distance between the tops of two lines of text: the font size times 1.5.
pub const LINE_HEIGHT: i32 = 75;

/// How far, right and down, the shadow of a text lies from the text.
pub const SHADOW_OFFSET: i32 = 5;

/// Top-left anchor of the title.
pub const TITLE_LEFT: i32 = 22;

pub const TITLE_TOP: i32 = 14;

/// Top-left anchor of the name.
pub const NAME_LEFT: i32 = 71;

pub const NAME_TOP: i32 = IMAGE_SIZE - 130;

/// The two colors that text is drawn in.
#[derive(Clone, Copy, Debug, PartialEq, Eq, Structural)]
pub enum Ink {
    /// Dark gray, drawn offset beneath the text for contrast.
    Shadow,
    /// A yellow like the in-game text.
    Text,
}

impl Ink {
    /// The color as red, green, blue and alpha.
    pub fn rgba(&self) -> (r: [u8; 4])
        ensures
            r@ == (match self {
                Ink::Shadow => seq![30u8, 30u8, 30u8, 255u8],
                Ink::Text => seq![255u8, 217u8, 0u8, 255u8],
            }),
    {
        let r = match self {
            Ink::Shadow => [30u8, 30u8, 30u8, 255u8],
            Ink::Text => [255u8, 217u8, 0u8, 255u8],
        };
        assert(r@ =~= (match self {
            Ink::Shadow => seq![30u8, 30u8, 30u8, 255u8],
            Ink::Text => seq![255u8, 217u8, 0u8, 255u8],
        }));
        r
    }
}

/// One variant to render: where its portrait is read from and written to,
/// where the overlays are, its rarity, its title and its name.
#[derive(Debug)]
pub struct RenderRequest {
    pub input_path: String,
    pub output_path: String,
    pub overlay_path: String,
    pub rarity: u8,
    pub identity: String,
    pub name: String,
}

/// One line of text, drawn with its top-left corner at (`x`, `y`).
#[derive(Debug)]
pub struct TextDraw {
    pub text: String,
    pub x: i32,
    pub y: i32,
    pub ink: Ink,
}

impl View for TextDraw {
    type V = (Seq<char>, int, int, Ink);

    open spec fn view(&self) -> (Seq<char>, int, int, Ink) {
        (self.text@, self.x as int, self.y as int, self.ink)
    }
}

/// An overlay image, and the error to give when it cannot be loaded.
#[derive(Debug)]
pub struct Layer {
    pub path: String,
    pub missing: ImageError,
}

/// How to render one portrait: the base portrait, resized to the canvas;
/// the overlays, bottom first, each resized to the canvas and placed at its
/// origin; then the lines of text, in order.
#[derive(Debug)]
pub struct RenderPlan {
    pub base: Layer,
    pub layers: Vec<Layer>,
    pub texts: Vec<TextDraw>,
}

pub open spec fn draws_view(ds: Seq<TextDraw>) -> Seq<(Seq<char>, int, int, Ink)> {
    ds.map_values(|d: TextDraw| d@)
}

/// How many of `n` lines, the first with its top at `y`, have a top that
/// pixel coordinates can hold.
pub open spec fn placeable(y: int, n: nat) -> nat
    decreases n,
{
    if n == 0 || y > i32::MAX {
        0
    } else {
        1 + placeable(y + LINE_HEIGHT, (n - 1) as nat)
    }
}

/// The lines placed left-aligned at `x`, one line height apart, from `y` down.
pub open spec fn placed(lines: Seq<Seq<char>>, x: int, y: int, ink: Ink) -> Seq<
    (Seq<char>, int, int, Ink),
> {
    Seq::new(placeable(y, lines.len()), |i: int| (lines[i], x, y + LINE_HEIGHT * i, ink))
}

/// Draws `lines` at (`x`, `y`), each line one line height below the last.
/// Lines whose top would lie past the largest pixel coordinate are left out:
/// they could not show on any canvas.
pub fn text_draws(lines: &Vec<String>, x: i32, y: i32, ink: Ink) -> (r: Vec<TextDraw>)
    ensures
        draws_view(r@) == placed(lines_view(lines@), x as int, y as int, ink),
{
    let mut r: Vec<TextDraw> = Vec::new();
    let mut i: usize = 0;
    let mut top: i64 = y as i64;
    let ghost n = lines@.len();
    while i < lines.len() && top <= i32::MAX as i64
        invariant
            n == lines@.len(),
            i <= n,
            r@.len() == i,
            top == y + LINE_HEIGHT * i,
            top <= i32::MAX + LINE_HEIGHT,
            placeable(y as int, n) == i + placeable(top as int, (n - i) as nat),
            draws_view(r@) =~= Seq::new(
                i as nat,
                |k: int| (lines_view(lines@)[k], x as int, y + LINE_HEIGHT * k, ink),
            ),
        decreases n - i,
    {
        let ghost before = r@;
        let line = lines[i].clone();
        assert(line@ == lines_view(lines@)[i as int]);
        r.push(TextDraw { text: line, x, y: top as i32, ink });
        assert(r@ == before.push(r@[i as int]));
        assert forall|k: int| 0 <= k < i + 1 implies #[trigger] draws_view(r@)[k] == (
            lines_view(lines@)[k],
            x as int,
            y + LINE_HEIGHT * k,
            ink,
        ) by {
            if k < i {
                assert(draws_view(before)[k] == before[k]@);
            }
        }
        assert(draws_view(r@) =~= Seq::new(
            (i + 1) as nat,
            |k: int| (lines_view(lines@)[k], x as int, y + LINE_HEIGHT * k, ink),
        ));
        i = i + 1;
        top = top + LINE_HEIGHT as i64;
    }
    assert(placeable(top as int, (n - i) as nat) == 0);
    assert(draws_view(r@) =~= placed(lines_view(lines@), x as int, y as int, ink));
    r
}

/// The text of a plan: the shadows of title and name, then title and name.
pub open spec fn planned_texts(title: Seq<Seq<char>>, name: Seq<Seq<char>>) -> Seq<
    (Seq<char>, int, int, Ink),
> {
    placed(title, TITLE_LEFT + SHADOW_OFFSET, TITLE_TOP + SHADOW_OFFSET, Ink::Shadow) + placed(
        name,
        NAME_LEFT + SHADOW_OFFSET,
        NAME_TOP + SHADOW_OFFSET,
        Ink::Shadow,
    ) + placed(title, TITLE_LEFT as int, TITLE_TOP as int, Ink::Text) + placed(
        name,
        NAME_LEFT as int,
        NAME_TOP as int,
        Ink::Text,
    )
}

/// `p` reads the base portrait from the input path, layers the gradient for the title's line count, then the border for
/// the rarity, and draws the title and name lines with their shadows.
pub open spec fn plan_is(
    p: RenderPlan,
    req: RenderRequest,
    title: Seq<Seq<char>>,
    name: Seq<Seq<char>>,
) -> bool {
    &&& p.base.path@ == req.input_path@
    &&& p.base.missing == ImageError::IdentityNotFound(p.base.path)
    &&& p.layers@.len() == 2
    &&& p.layers@[0].path@ == req.overlay_path@ + gradient_name(title.len() as int)
    &&& p.layers@[0].missing == ImageError::TextShadowNotFound(p.layers@[0].path)
    &&& p.layers@[1].path@ == req.overlay_path@ + border_name(req.rarity as int)
    &&& p.layers@[1].missing == ImageError::RarityNotFound(p.layers@[1].path)
    &&& draws_view(p.texts@) == planned_texts(title, name)
}

/// The outcome of planning `req` with its title and name wrapped to these
/// lines: a title of other than one or two lines is too long; else a rarity
/// outside 1 to 3 is rejected; else the plan is made.
pub open spec fn plan_outcome(
    r: Result<RenderPlan, ImageError>,
    req: RenderRequest,
    title: Seq<Seq<char>>,
    name: Seq<Seq<char>>,
) -> bool {
    if !valid_line_count(title.len() as int) {
        r == Err::<RenderPlan, ImageError>(ImageError::TextTooLong)
    } else if !valid_rarity(req.rarity as int) {
        r == Err::<RenderPlan, ImageError>(ImageError::BadRarityLevel(req.rarity as i32))
    } else {
        r matches Ok(p) && plan_is(p, req, title, name)
    }
}

/// Plans a render from the title and name already wrapped into lines.
pub fn plan_from_lines(
    req: &RenderRequest,
    title_lines: &Vec<String>,
    name_lines: &Vec<String>,
) -> (r: Result<RenderPlan, ImageError>)
    ensures
        plan_outcome(r, *req, lines_view(title_lines@), lines_view(name_lines@)),
{
    let gradient = if title_lines.len() == 1 {
        Gradient::Small
    } else if title_lines.len() == 2 {
        Gradient::Large
    } else {
        return Err(ImageError::TextTooLong);
    };
    let border = match Border::from_rarity(req.rarity) {
        Ok(b) => b,
        Err(e) => return Err(e),
    };
    let gradient_path = req.overlay_path.clone().concat(gradient.file_name().as_str());
    let border_path = req.overlay_path.clone().concat(border.file_name().as_str());
    let mut layers: Vec<Layer> = Vec::new();
    layers.push(
        Layer { path: gradient_path.clone(), missing: ImageError::TextShadowNotFound(gradient_path) },
    );
    layers.push(
        Layer { path: border_path.clone(), missing: ImageError::RarityNotFound(border_path) },
    );

    let mut texts = text_draws(
        title_lines,
        TITLE_LEFT + SHADOW_OFFSET,
        TITLE_TOP + SHADOW_OFFSET,
        Ink::Shadow,
    );
    let mut more = text_draws(name_lines, NAME_LEFT + SHADOW_OFFSET, NAME_TOP + SHADOW_OFFSET, Ink::Shadow);
    texts.append(&mut more);
    let mut more = text_draws(title_lines, TITLE_LEFT, TITLE_TOP, Ink::Text);
    texts.append(&mut more);
    let mut more = text_draws(name_lines, NAME_LEFT, NAME_TOP, Ink::Text);
    texts.append(&mut more);
    let base = Layer {
        path: req.input_path.clone(),
        missing: ImageError::IdentityNotFound(req.input_path.clone()),
    };
    let plan = RenderPlan { base, layers, texts };
    assert(draws_view(plan.texts@) =~= planned_texts(lines_view(title_lines@), lines_view(name_lines@)));
    Ok(plan)
}

/// Plans the render of one variant: wraps its title and name, checks the
/// title's line count and the rarity, and places overlays and text.
/// A title on one short line of ASCII without trailing spaces stays one line,
/// equal to the title.
pub fn render_plan(req: &RenderRequest) -> (r: Result<RenderPlan, ImageError>)
    ensures
        plan_outcome(
            r,
            *req,
            wrapped_lines(req.identity@, WRAPPED_WIDTH as nat),
            wrapped_lines(req.name@, WRAPPED_WIDTH as nat),
        ),
        fits_on_one_line(req.identity@, WRAPPED_WIDTH as nat) && trim_end_spaces(req.identity@)
            == req.identity@ ==> plan_outcome(
            r,
            *req,
            seq![req.identity@],
            wrapped_lines(req.name@, WRAPPED_WIDTH as nat),
        ),
{
    let title_lines = wrap_text(req.identity.as_str(), WRAPPED_WIDTH);
    let name_lines = wrap_text(req.name.as_str(), WRAPPED_WIDTH);
    plan_from_lines(req, &title_lines, &name_lines)
}

} // verus!
