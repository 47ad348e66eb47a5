//! The result of a conversion: paths with their fill colors, in the order in
//! which they are drawn, and the text of the document that shows them.

use vstd::prelude::*;
use vstd::string::*;
use crate::color::{hex_string, Color};
use crate::text::{decimal, push_decimal};

verus! {

/// A path as the engine fits it; nothing is seen inside it.
#[verifier::external_type_specification]
#[verifier::external_body]
pub struct ExCompoundPath(visioncortex::CompoundPath);

/// A path and the color that fills it.
#[derive(Debug)]
pub struct SvgPath {
    pub path: visioncortex::CompoundPath,
    pub color: Color,
}

/// The paths of an image of `width` by `height` pixels. A later path is
/// drawn over an earlier one.
#[derive(Debug)]
pub struct SvgFile {
    pub paths: Vec<SvgPath>,
    pub width: usize,
    pub height: usize,
    /// Decimal places of the numbers in a path; `None` for all of them.
    pub path_precision: Option<u32>,
}

/// What a path says of itself: its drawing commands and the two coordinates
/// of its offset, each as text.
#[derive(Debug, Clone)]
pub struct PathText {
    pub data: String,
    pub x: String,
    pub y: String,
}

/// What one path contributes to the document: its drawing commands, its fill
/// and the two coordinates of its offset, each as text.
#[derive(Debug, Clone)]
pub struct PathElement {
    pub data: String,
    pub fill: String,
    pub x: String,
    pub y: String,
}

/// The four texts of a path element.
pub struct ElementText {
    pub data: Seq<char>,
    pub fill: Seq<char>,
    pub x: Seq<char>,
    pub y: Seq<char>,
}

impl View for PathElement {
    type V = ElementText;

    open spec fn view(&self) -> ElementText {
        ElementText { data: self.data@, fill: self.fill@, x: self.x@, y: self.y@ }
    }
}

/// The line that draws one path.
pub open spec fn element_text(element: ElementText) -> Seq<char> {
    "<path d=\""@ + element.data + "\" fill=\""@ + element.fill
        + "\" transform=\"translate("@ + element.x + ","@ + element.y + ")\"/>\n"@
}

/// The lines that come before the paths: the declaration, the comment that
/// names the generator and its version, and the opening of the drawing with
/// its size.
pub open spec fn document_head(width: nat, height: nat) -> Seq<char> {
    "<?xml version=\"1.0\" encoding=\"UTF-8\"?>\n"@
        + "<!-- Generator: visioncortex VTracer 0.1.0 -->\n"@
        + "<svg version=\"1.1\" xmlns=\"http://www.w3.org/2000/svg\" width=\""@ + decimal(width)
        + "\" height=\""@ + decimal(height) + "\">\n"@
}

/// The lines of the first `n` paths, one after the other.
pub open spec fn elements_text(elements: Seq<ElementText>, n: int) -> Seq<char>
    decreases n,
{
    if n <= 0 {
        Seq::empty()
    } else {
        elements_text(elements, n - 1) + element_text(elements[n - 1])
    }
}

/// The whole document: the head, a line for each path in order, and the
/// closing line.
pub open spec fn document_text(width: nat, height: nat, elements: Seq<ElementText>) -> Seq<char> {
    document_head(width, height) + elements_text(elements, elements.len() as int) + "</svg>\n"@
}

/// The texts of a list of path elements.
pub open spec fn texts_of(elements: Seq<PathElement>) -> Seq<ElementText> {
    Seq::new(elements.len(), |i: int| elements[i]@)
}

/// Writes a document from the texts of its paths.
pub fn render_document(width: usize, height: usize, elements: &Vec<PathElement>) -> (text: String)
    ensures
        text@ == document_text(width as nat, height as nat, texts_of(elements@)),
{
    let ghost texts = texts_of(elements@);
    let mut text = String::from_str("<?xml version=\"1.0\" encoding=\"UTF-8\"?>\n");
    text.append("<!-- Generator: visioncortex VTracer 0.1.0 -->\n");
    text.append("<svg version=\"1.1\" xmlns=\"http://www.w3.org/2000/svg\" width=\"");
    push_decimal(&mut text, width as u128);
    text.append("\" height=\"");
    push_decimal(&mut text, height as u128);
    text.append("\">\n");
    let mut i: usize = 0;
    while i < elements.len()
        invariant
            i <= elements@.len(),
            texts == texts_of(elements@),
            text@ == document_head(width as nat, height as nat) + elements_text(texts, i as int),
        decreases elements@.len() - i,
    {
        let element = &elements[i];
        text.append("<path d=\"");
        text.append(element.data.as_str());
        text.append("\" fill=\"");
        text.append(element.fill.as_str());
        text.append("\" transform=\"translate(");
        text.append(element.x.as_str());
        text.append(",");
        text.append(element.y.as_str());
        text.append(")\"/>\n");
        i = i + 1;
    }
    text.append("</svg>\n");
    text
}

impl SvgFile {
    /// A document without paths.
    pub fn new(width: usize, height: usize, path_precision: Option<u32>) -> (file: SvgFile)
        ensures
            file.paths@.len() == 0,
            file.width == width,
            file.height == height,
            file.path_precision == path_precision,
    {
        SvgFile { paths: Vec::new(), width, height, path_precision }
    }

    /// Adds a path after those that are there. Nothing else changes.
    pub fn add_path(&mut self, path: visioncortex::CompoundPath, color: Color)
        ensures
            final(self).paths@ == old(self).paths@.push(SvgPath { path, color }),
            final(self).width == old(self).width,
            final(self).height == old(self).height,
            final(self).path_precision == old(self).path_precision,
    {
        self.paths.push(SvgPath { path, color });
    }

    /// What each path contributes to the document, given what the paths say
    /// of themselves: the fill is the path's color as `#RRGGBB`.
    pub open spec fn elements_for(self, texts: Seq<PathText>) -> Seq<ElementText> {
        Seq::new(
            self.paths@.len(),
            |i: int|
                ElementText {
                    data: texts[i].data@,
                    fill: hex_string(self.paths@[i].color),
                    x: texts[i].x@,
                    y: texts[i].y@,
                },
        )
    }

    /// The document: the head for this width and height, a line for each
    /// path in order, and the closing line. The line of path `i` holds the
    /// drawing commands and the offset of `texts[i]`, and names the path's
    /// color as its fill.
    pub fn to_svg_string(&self, texts: &Vec<PathText>) -> (text: String)
        requires
            texts@.len() == self.paths@.len(),
        ensures
            text@ == document_text(
                self.width as nat,
                self.height as nat,
                self.elements_for(texts@),
            ),
    {
        let mut elements: Vec<PathElement> = Vec::new();
        let mut i: usize = 0;
        while i < self.paths.len()
            invariant
                i <= self.paths@.len(),
                texts@.len() == self.paths@.len(),
                elements@.len() == i,
                forall|j: int|
                    0 <= j < i ==> (#[trigger] elements@[j])@ == self.elements_for(texts@)[j],
            decreases self.paths@.len() - i,
        {
            let given = &texts[i];
            elements.push(
                PathElement {
                    data: String::from_str(given.data.as_str()),
                    fill: self.paths[i].color.to_hex_string(),
                    x: String::from_str(given.x.as_str()),
                    y: String::from_str(given.y.as_str()),
                },
            );
            i = i + 1;
        }
        assert(texts_of(elements@) =~= self.elements_for(texts@));
        render_document(self.width, self.height, &elements)
    }
}

} // verus!
