use vstd::prelude::*;

verus! {

/// A cell area in widget coordinates, as the toolkit hands it to a renderer.
#[derive(Clone, Copy, Debug, PartialEq, Eq, Structural)]
pub struct Rectangle {
    pub x: i32,
    pub y: i32,
    pub width: i32,
    pub height: i32,
}

/// What one render call draws: `text` laid out with its top left corner at
/// (`layout_x`, `layout_y`), clipped to `clip`.
#[derive(Debug)]
pub struct RenderPlan {
    pub text: String,
    pub clip: Rectangle,
    pub layout_x: i64,
    pub layout_y: i64,
}

/// How a property may be accessed from outside the instance.
#[derive(Clone, Copy, Debug, PartialEq, Eq, Structural)]
pub enum PropertyMutability {
    Readable,
    Writable,
    ReadWrite,
}

/// The properties a renderer instance exposes.
#[derive(Clone, Copy, Debug, PartialEq, Eq, Structural)]
pub enum RendererProperty {
    Text,
}

/// The description of a string property that the class installs.
#[derive(Debug)]
pub struct StringPropertySpec {
    pub name: String,
    pub nick: String,
    pub blurb: String,
    pub default: Option<String>,
    pub mutability: PropertyMutability,
}

/// The class's property table: a property's id is its index here.
pub open spec fn property_table() -> Seq<RendererProperty> {
    seq![RendererProperty::Text]
}

/// The class's property table, in id order.
pub fn properties() -> (r: Vec<RendererProperty>)
    ensures
        r@ == property_table(),
{
    let r = vec![RendererProperty::Text];
    assert(r@ =~= property_table());
    r
}

/// Describes `p` for installing on the class: the text is a readable and
/// writable string with no default.
pub fn property_spec(p: RendererProperty) -> (r: StringPropertySpec)
    ensures
        r.name@ == "text"@,
        r.nick@ == "Text"@,
        r.blurb@ == "Text to render"@,
        r.default is None,
        r.mutability == PropertyMutability::ReadWrite,
{
    match p {
        RendererProperty::Text => StringPropertySpec {
            name: String::from_str("text"),
            nick: String::from_str("Text"),
            blurb: String::from_str("Text to render"),
            default: None,
            mutability: PropertyMutability::ReadWrite,
        },
    }
}

/// Per-instance state of the custom cell renderer: the text it shows.
#[derive(Debug)]
pub struct CellRendererCustom {
    text: String,
}

impl View for CellRendererCustom {
    type V = Seq<char>;

    closed spec fn view(&self) -> Seq<char> {
        self.text@
    }
}

impl CellRendererCustom {
    /// A fresh instance shows the empty text.
    pub fn new() -> (r: CellRendererCustom)
        ensures
            r@ == Seq::<char>::empty(),
    {
        CellRendererCustom { text: String::new() }
    }

    /// The text this instance shows.
    pub fn text(&self) -> (r: &str)
        ensures
            r@ == self@,
    {
        self.text.as_str()
    }

    /// Replaces the text this instance shows.
    pub fn set_text(&mut self, text: &str)
        ensures
            final(self)@ == text@,
    {
        self.text = text.to_owned();
    }

    /// Sets the property with index `id` in the class's table from `value`.
    pub fn set_property(&mut self, id: u32, value: &str)
        requires
            (id as int) < property_table().len(),
        ensures
            property_table()[id as int] == RendererProperty::Text,
            final(self)@ == value@,
    {
        let props = properties();
        match props[id as usize] {
            RendererProperty::Text => self.set_text(value),
        }
    }

    /// Reads the property with index `id` in the class's table.
    pub fn get_property(&self, id: u32) -> (r: Result<String, ()>)
        requires
            (id as int) < property_table().len(),
        ensures
            property_table()[id as int] == RendererProperty::Text,
            r matches Ok(s) && s@ == self@,
    {
        let props = properties();
        match props[id as usize] {
            RendererProperty::Text => Ok(self.text.clone()),
        }
    }

    /// Lays out one cell: the whole cell area is the clip, and the text starts
    /// at the area's corner moved in by the renderer's padding.
    pub fn render(&self, cell_area: &Rectangle, padx: i32, pady: i32) -> (r: RenderPlan)
        ensures
            r.text@ == self@,
            r.clip == *cell_area,
            r.layout_x == cell_area.x + padx,
            r.layout_y == cell_area.y + pady,
    {
        RenderPlan {
            text: self.text.clone(),
            clip: *cell_area,
            layout_x: cell_area.x as i64 + padx as i64,
            layout_y: cell_area.y as i64 + pady as i64,
        }
    }
}

} // verus!
