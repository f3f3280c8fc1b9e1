use vstd::prelude::*;
use crate::prospect::{Prospect, identifier_of};

verus! {

/// Page width in millimetres.
pub const PAGE_WIDTH_MM: u32 = 247;

/// Page height in millimetres.
pub const PAGE_HEIGHT_MM: u32 = 210;

/// Size in points of the one typeface used on the page.
pub const FONT_SIZE_PT: u32 = 24;

/// Left margin of every line, in millimetres.
pub const MARGIN_MM: u32 = 20;

/// One line of text placed on the page; `y_mm` is measured from the bottom.
pub struct TextLine {
    pub text: String,
    pub x_mm: u32,
    pub y_mm: u32,
}

/// Everything a PDF backend needs to draw a prospect's single page.
pub struct DocumentPlan {
    /// `"{name}-{model}"`, the base name of the output file.
    pub identifier: String,
    pub title: String,
    pub layer: String,
    pub width_mm: u32,
    pub height_mm: u32,
    pub font_size_pt: u32,
    pub lines: Vec<TextLine>,
}

pub open spec fn heading_text() -> Seq<char> {
    "PROSPECT"@
}

pub open spec fn separator_text() -> Seq<char> {
    "------------------------------------------------"@
}

pub open spec fn bike_line_of(name: Seq<char>) -> Seq<char> {
    "BIKE:         "@ + name
}

pub open spec fn model_line_of(model: Seq<char>) -> Seq<char> {
    "MODEL:    "@ + model
}

pub open spec fn title_of(name: Seq<char>) -> Seq<char> {
    "PROSPECT: "@ + name
}

/// The text of the four lines, top to bottom.
pub open spec fn line_texts(name: Seq<char>, model: Seq<char>) -> Seq<Seq<char>> {
    seq![heading_text(), separator_text(), bike_line_of(name), model_line_of(model)]
}

/// The height of each of the four lines, top to bottom.
pub open spec fn line_heights() -> Seq<u32> {
    seq![70u32, 60u32, 30u32, 20u32]
}

/// The plan is the fixed layout filled with the prospect's fields.
pub open spec fn plan_of(d: DocumentPlan, name: Seq<char>, model: Seq<char>) -> bool {
    &&& d.identifier@ == identifier_of(name, model)
    &&& d.title@ == title_of(name)
    &&& d.layer@ == "INTRO"@
    &&& d.width_mm == PAGE_WIDTH_MM
    &&& d.height_mm == PAGE_HEIGHT_MM
    &&& d.font_size_pt == FONT_SIZE_PT
    &&& d.lines@.len() == 4
    &&& forall|i: int|
        0 <= i < 4 ==> {
            &&& (#[trigger] d.lines@[i]).text@ == line_texts(name, model)[i]
            &&& d.lines@[i].x_mm == MARGIN_MM
            &&& d.lines@[i].y_mm == line_heights()[i]
        }
}

fn text_line(text: String, y_mm: u32) -> (r: TextLine)
    ensures
        r.text@ == text@,
        r.x_mm == MARGIN_MM,
        r.y_mm == y_mm,
{
    TextLine { text, x_mm: MARGIN_MM, y_mm }
}

fn prefixed(prefix: &str, s: &String) -> (r: String)
    ensures
        r@ == prefix@ + s@,
{
    let mut r = String::from_str(prefix);
    r.append(s.as_str());
    r
}

/// Lays out a prospect's document: a heading, a separator, the bike name and
/// the model, on one page of fixed size.
pub fn render(prospect: &Prospect) -> (r: DocumentPlan)
    ensures
        plan_of(r, prospect.name@, prospect.model@),
{
    let mut lines: Vec<TextLine> = Vec::new();
    lines.push(text_line(String::from_str("PROSPECT"), 70));
    lines.push(
        text_line(String::from_str("------------------------------------------------"), 60),
    );
    lines.push(text_line(prefixed("BIKE:         ", &prospect.name), 30));
    lines.push(text_line(prefixed("MODEL:    ", &prospect.model), 20));
    let r = DocumentPlan {
        identifier: prospect.identifier(),
        title: prefixed("PROSPECT: ", &prospect.name),
        layer: String::from_str("INTRO"),
        width_mm: PAGE_WIDTH_MM,
        height_mm: PAGE_HEIGHT_MM,
        font_size_pt: FONT_SIZE_PT,
        lines,
    };
    assert(forall|i: int|
        0 <= i < 4 ==> {
            &&& (#[trigger] r.lines@[i]).text@ == line_texts(prospect.name@, prospect.model@)[i]
            &&& r.lines@[i].x_mm == MARGIN_MM
            &&& r.lines@[i].y_mm == line_heights()[i]
        });
    r
}

/// The name of the file a backend writes the rendered document to.
pub fn file_name(prospect: &Prospect) -> (r: String)
    ensures
        r@ == identifier_of(prospect.name@, prospect.model@) + ".pdf"@,
{
    let mut r = prospect.identifier();
    r.append(".pdf");
    r
}

/// A rendered document is never empty and is named by its prospect's fields.
pub proof fn lemma_render_named(d: DocumentPlan, name: Seq<char>, model: Seq<char>)
    requires
        plan_of(d, name, model),
    ensures
        d.lines@.len() > 0,
        d.identifier@ == name + "-"@ + model,
{
}

} // verus!
