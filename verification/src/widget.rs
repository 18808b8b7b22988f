//! The tree of built-in widgets that a plugin's view is made of.

use vstd::prelude::*;
use vstd::string::StringExecFns;
use crate::text::same_text;

verus! {

/// The number by which a plugin and the launcher name one widget.
pub type NativeUiWidgetId = u32;

/// The value of one property of a widget.
#[derive(Clone, Debug, PartialEq, Eq)]
pub enum NativeUiPropertyValue {
    String(String),
    /// A number, as the 64 bits of its IEEE 754 form.
    Number(u64),
    Bool(bool),
    Undefined,
}

impl NativeUiPropertyValue {
    /// The text of a value that is one.
    pub open spec fn text(self) -> Option<Seq<char>> {
        match self {
            NativeUiPropertyValue::String(text) => Some(text@),
            _ => None,
        }
    }

    /// The text of a value that is one.
    pub fn as_string(&self) -> (text: Option<&str>)
        ensures
            match text {
                Some(text) => self.text() == Some(text@),
                None => self.text() is None,
            },
    {
        match self {
            NativeUiPropertyValue::String(text) => Some(text.as_str()),
            _ => None,
        }
    }
}

/// What a widget is.
#[derive(Clone, Copy, Debug, PartialEq, Eq, Structural)]
pub enum WidgetKind {
    Text,
    TextContent,
    Link,
    Tag,
    MetadataItem,
    Separator,
    Metadata,
    Image,
    H1,
    H2,
    H3,
    H4,
    H5,
    H6,
    HorizontalBreak,
    CodeBlock,
    Code,
    Content,
    Detail,
    Container,
}

impl WidgetKind {
    /// Whether a widget of this kind can hold other widgets. A text, a
    /// separator, an image and a horizontal break cannot.
    pub open spec fn can_be_parent(self) -> bool {
        !(self == WidgetKind::Text || self == WidgetKind::Separator || self == WidgetKind::Image || self
            == WidgetKind::HorizontalBreak)
    }

    /// The kind of widget that a plugin asks for by a type name, if the name
    /// is one of a built-in widget.
    pub open spec fn of_type(widget_type: Seq<char>) -> Option<WidgetKind> {
        if widget_type == "placeholdername:textcontent"@ {
            Some(WidgetKind::TextContent)
        } else if widget_type == "placeholdername:link"@ {
            Some(WidgetKind::Link)
        } else if widget_type == "placeholdername:tag"@ {
            Some(WidgetKind::Tag)
        } else if widget_type == "placeholdername:metadata_item"@ {
            Some(WidgetKind::MetadataItem)
        } else if widget_type == "placeholdername:separator"@ {
            Some(WidgetKind::Separator)
        } else if widget_type == "placeholdername:metadata"@ {
            Some(WidgetKind::Metadata)
        } else if widget_type == "placeholdername:image"@ {
            Some(WidgetKind::Image)
        } else if widget_type == "placeholdername:h1"@ {
            Some(WidgetKind::H1)
        } else if widget_type == "placeholdername:h2"@ {
            Some(WidgetKind::H2)
        } else if widget_type == "placeholdername:h3"@ {
            Some(WidgetKind::H3)
        } else if widget_type == "placeholdername:h4"@ {
            Some(WidgetKind::H4)
        } else if widget_type == "placeholdername:h5"@ {
            Some(WidgetKind::H5)
        } else if widget_type == "placeholdername:h6"@ {
            Some(WidgetKind::H6)
        } else if widget_type == "placeholdername:horizontal_break"@ {
            Some(WidgetKind::HorizontalBreak)
        } else if widget_type == "placeholdername:code_block"@ {
            Some(WidgetKind::CodeBlock)
        } else if widget_type == "placeholdername:code"@ {
            Some(WidgetKind::Code)
        } else if widget_type == "placeholdername:content"@ {
            Some(WidgetKind::Content)
        } else if widget_type == "placeholdername:detail"@ {
            Some(WidgetKind::Detail)
        } else {
            None
        }
    }

    /// The kind of widget that a plugin asks for by a type name, if the name
    /// is one of a built-in widget.
    pub fn from_type(widget_type: &str) -> (kind: Option<WidgetKind>)
        ensures
            kind == Self::of_type(widget_type@),
    {
        if same_text(widget_type, "placeholdername:textcontent") {
            Some(WidgetKind::TextContent)
        } else if same_text(widget_type, "placeholdername:link") {
            Some(WidgetKind::Link)
        } else if same_text(widget_type, "placeholdername:tag") {
            Some(WidgetKind::Tag)
        } else if same_text(widget_type, "placeholdername:metadata_item") {
            Some(WidgetKind::MetadataItem)
        } else if same_text(widget_type, "placeholdername:separator") {
            Some(WidgetKind::Separator)
        } else if same_text(widget_type, "placeholdername:metadata") {
            Some(WidgetKind::Metadata)
        } else if same_text(widget_type, "placeholdername:image") {
            Some(WidgetKind::Image)
        } else if same_text(widget_type, "placeholdername:h1") {
            Some(WidgetKind::H1)
        } else if same_text(widget_type, "placeholdername:h2") {
            Some(WidgetKind::H2)
        } else if same_text(widget_type, "placeholdername:h3") {
            Some(WidgetKind::H3)
        } else if same_text(widget_type, "placeholdername:h4") {
            Some(WidgetKind::H4)
        } else if same_text(widget_type, "placeholdername:h5") {
            Some(WidgetKind::H5)
        } else if same_text(widget_type, "placeholdername:h6") {
            Some(WidgetKind::H6)
        } else if same_text(widget_type, "placeholdername:horizontal_break") {
            Some(WidgetKind::HorizontalBreak)
        } else if same_text(widget_type, "placeholdername:code_block") {
            Some(WidgetKind::CodeBlock)
        } else if same_text(widget_type, "placeholdername:code") {
            Some(WidgetKind::Code)
        } else if same_text(widget_type, "placeholdername:content") {
            Some(WidgetKind::Content)
        } else if same_text(widget_type, "placeholdername:detail") {
            Some(WidgetKind::Detail)
        } else {
            None
        }
    }

    /// Whether a widget of this kind can hold other widgets.
    pub fn is_parent(&self) -> (parent: bool)
        ensures
            parent == self.can_be_parent(),
    {
        match self {
            WidgetKind::Text => false,
            WidgetKind::Separator => false,
            WidgetKind::Image => false,
            WidgetKind::HorizontalBreak => false,
            _ => true,
        }
    }
}

/// The text of the first property of a given name, where that property
/// holds a text.
pub open spec fn text_property(properties: Seq<(String, NativeUiPropertyValue)>, name: Seq<char>) -> Option<
    Seq<char>,
>
    decreases properties.len(),
{
    if properties.len() == 0 {
        None
    } else if properties[0].0@ == name {
        properties[0].1.text()
    } else {
        text_property(properties.drop_first(), name)
    }
}

/// The text of the first property of a given name, where that property
/// holds a text.
pub fn find_text_property<'a>(properties: &'a Vec<(String, NativeUiPropertyValue)>, name: &str) -> (text:
    Option<&'a str>)
    ensures
        match text {
            Some(text) => text_property(properties@, name@) == Some(text@),
            None => text_property(properties@, name@) is None,
        },
{
    let mut at: usize = 0;
    assert(properties@.skip(0) =~= properties@);
    while at < properties.len()
        invariant
            at <= properties.len(),
            text_property(properties@, name@) == text_property(properties@.skip(at as int), name@),
        decreases properties.len() - at,
    {
        proof {
            assert(properties@.skip(at as int).drop_first() =~= properties@.skip(at + 1));
        }
        if same_text(properties[at].0.as_str(), name) {
            return properties[at].1.as_string();
        }
        at += 1;
    }
    None
}

/// What happens when a widget is pressed.
#[derive(Clone, Debug, PartialEq, Eq)]
pub enum BuiltInWidgetEvent {
    LinkClick { href: String },
    TagClick { widget_id: NativeUiWidgetId },
}

/// What a plugin is told of an event in its view.
#[derive(Clone, Debug, PartialEq, Eq)]
pub struct ViewEvent {
    pub event_name: String,
    pub widget_id: NativeUiWidgetId,
}

impl BuiltInWidgetEvent {
    /// What the plugin is told of the click on a tag.
    pub fn handle(&self) -> (signal: ViewEvent)
        requires
            self is TagClick,
        ensures
            signal.event_name@ == "onClick"@,
            signal.widget_id == self->widget_id,
    {
        match self {
            BuiltInWidgetEvent::TagClick { widget_id } => ViewEvent {
                event_name: String::from_str("onClick"),
                widget_id: *widget_id,
            },
            BuiltInWidgetEvent::LinkClick { .. } => unreached(),
        }
    }
}

enum BuiltInWidget {
    Text(String),
    TextContent { content: Vec<BuiltInWidgetWrapper> },
    Link { href: String, content: Vec<BuiltInWidgetWrapper> },
    Tag { content: Vec<BuiltInWidgetWrapper> },
    MetadataItem { content: Vec<BuiltInWidgetWrapper> },
    Separator,
    Metadata { content: Vec<BuiltInWidgetWrapper> },
    Image,
    H1 { content: Vec<BuiltInWidgetWrapper> },
    H2 { content: Vec<BuiltInWidgetWrapper> },
    H3 { content: Vec<BuiltInWidgetWrapper> },
    H4 { content: Vec<BuiltInWidgetWrapper> },
    H5 { content: Vec<BuiltInWidgetWrapper> },
    H6 { content: Vec<BuiltInWidgetWrapper> },
    HorizontalBreak,
    CodeBlock { content: Vec<BuiltInWidgetWrapper> },
    Code { content: Vec<BuiltInWidgetWrapper> },
    Content { content: Vec<BuiltInWidgetWrapper> },
    Detail { content: Vec<BuiltInWidgetWrapper> },
    Container { content: Vec<BuiltInWidgetWrapper> },
}

/// A built-in widget with the widgets inside it.
pub struct BuiltInWidgetWrapper {
    id: NativeUiWidgetId,
    inner: BuiltInWidget,
}

impl BuiltInWidget {
    spec fn kind(self) -> WidgetKind {
        match self {
            BuiltInWidget::Text(_) => WidgetKind::Text,
            BuiltInWidget::TextContent { .. } => WidgetKind::TextContent,
            BuiltInWidget::Link { .. } => WidgetKind::Link,
            BuiltInWidget::Tag { .. } => WidgetKind::Tag,
            BuiltInWidget::MetadataItem { .. } => WidgetKind::MetadataItem,
            BuiltInWidget::Separator => WidgetKind::Separator,
            BuiltInWidget::Metadata { .. } => WidgetKind::Metadata,
            BuiltInWidget::Image => WidgetKind::Image,
            BuiltInWidget::H1 { .. } => WidgetKind::H1,
            BuiltInWidget::H2 { .. } => WidgetKind::H2,
            BuiltInWidget::H3 { .. } => WidgetKind::H3,
            BuiltInWidget::H4 { .. } => WidgetKind::H4,
            BuiltInWidget::H5 { .. } => WidgetKind::H5,
            BuiltInWidget::H6 { .. } => WidgetKind::H6,
            BuiltInWidget::HorizontalBreak => WidgetKind::HorizontalBreak,
            BuiltInWidget::CodeBlock { .. } => WidgetKind::CodeBlock,
            BuiltInWidget::Code { .. } => WidgetKind::Code,
            BuiltInWidget::Content { .. } => WidgetKind::Content,
            BuiltInWidget::Detail { .. } => WidgetKind::Detail,
            BuiltInWidget::Container { .. } => WidgetKind::Container,
        }
    }

    spec fn children(self) -> Seq<BuiltInWidgetWrapper> {
        match self {
            BuiltInWidget::Text(_) => Seq::empty(),
            BuiltInWidget::TextContent { content } => content@,
            BuiltInWidget::Link { content, .. } => content@,
            BuiltInWidget::Tag { content } => content@,
            BuiltInWidget::MetadataItem { content } => content@,
            BuiltInWidget::Separator => Seq::empty(),
            BuiltInWidget::Metadata { content } => content@,
            BuiltInWidget::Image => Seq::empty(),
            BuiltInWidget::H1 { content } => content@,
            BuiltInWidget::H2 { content } => content@,
            BuiltInWidget::H3 { content } => content@,
            BuiltInWidget::H4 { content } => content@,
            BuiltInWidget::H5 { content } => content@,
            BuiltInWidget::H6 { content } => content@,
            BuiltInWidget::HorizontalBreak => Seq::empty(),
            BuiltInWidget::CodeBlock { content } => content@,
            BuiltInWidget::Code { content } => content@,
            BuiltInWidget::Content { content } => content@,
            BuiltInWidget::Detail { content } => content@,
            BuiltInWidget::Container { content } => content@,
        }
    }

    spec fn label(self) -> Seq<char> {
        match self {
            BuiltInWidget::Text(text) => text@,
            BuiltInWidget::Link { href, .. } => href@,
            _ => Seq::empty(),
        }
    }

    fn tag(&self) -> (kind: WidgetKind)
        ensures
            kind == self.kind(),
    {
        match self {
            BuiltInWidget::Text(_) => WidgetKind::Text,
            BuiltInWidget::TextContent { .. } => WidgetKind::TextContent,
            BuiltInWidget::Link { .. } => WidgetKind::Link,
            BuiltInWidget::Tag { .. } => WidgetKind::Tag,
            BuiltInWidget::MetadataItem { .. } => WidgetKind::MetadataItem,
            BuiltInWidget::Separator => WidgetKind::Separator,
            BuiltInWidget::Metadata { .. } => WidgetKind::Metadata,
            BuiltInWidget::Image => WidgetKind::Image,
            BuiltInWidget::H1 { .. } => WidgetKind::H1,
            BuiltInWidget::H2 { .. } => WidgetKind::H2,
            BuiltInWidget::H3 { .. } => WidgetKind::H3,
            BuiltInWidget::H4 { .. } => WidgetKind::H4,
            BuiltInWidget::H5 { .. } => WidgetKind::H5,
            BuiltInWidget::H6 { .. } => WidgetKind::H6,
            BuiltInWidget::HorizontalBreak => WidgetKind::HorizontalBreak,
            BuiltInWidget::CodeBlock { .. } => WidgetKind::CodeBlock,
            BuiltInWidget::Code { .. } => WidgetKind::Code,
            BuiltInWidget::Content { .. } => WidgetKind::Content,
            BuiltInWidget::Detail { .. } => WidgetKind::Detail,
            BuiltInWidget::Container { .. } => WidgetKind::Container,
        }
    }

    fn content(&self) -> (content: Option<&Vec<BuiltInWidgetWrapper>>)
        ensures
            match content {
                Some(content) => self.kind().can_be_parent() && content@ == self.children(),
                None => !self.kind().can_be_parent() && self.children().len() == 0,
            },
    {
        match self {
            BuiltInWidget::Text(_) => None,
            BuiltInWidget::TextContent { content } => Some(content),
            BuiltInWidget::Link { content, .. } => Some(content),
            BuiltInWidget::Tag { content } => Some(content),
            BuiltInWidget::MetadataItem { content } => Some(content),
            BuiltInWidget::Separator => None,
            BuiltInWidget::Metadata { content } => Some(content),
            BuiltInWidget::Image => None,
            BuiltInWidget::H1 { content } => Some(content),
            BuiltInWidget::H2 { content } => Some(content),
            BuiltInWidget::H3 { content } => Some(content),
            BuiltInWidget::H4 { content } => Some(content),
            BuiltInWidget::H5 { content } => Some(content),
            BuiltInWidget::H6 { content } => Some(content),
            BuiltInWidget::HorizontalBreak => None,
            BuiltInWidget::CodeBlock { content } => Some(content),
            BuiltInWidget::Code { content } => Some(content),
            BuiltInWidget::Content { content } => Some(content),
            BuiltInWidget::Detail { content } => Some(content),
            BuiltInWidget::Container { content } => Some(content),
        }
    }

    fn empty(kind: WidgetKind, label: String) -> (widget: BuiltInWidget)
        ensures
            widget.kind() == kind,
            widget.children() == Seq::<BuiltInWidgetWrapper>::empty(),
            kind == WidgetKind::Text || kind == WidgetKind::Link ==> widget.label() == label@,
            !(kind == WidgetKind::Text || kind == WidgetKind::Link) ==> widget.label() == Seq::<char>::empty(),
    {
        match kind {
            WidgetKind::Text => BuiltInWidget::Text(label),
            WidgetKind::TextContent => BuiltInWidget::TextContent { content: Vec::new() },
            WidgetKind::Link => BuiltInWidget::Link { href: label, content: Vec::new() },
            WidgetKind::Tag => BuiltInWidget::Tag { content: Vec::new() },
            WidgetKind::MetadataItem => BuiltInWidget::MetadataItem { content: Vec::new() },
            WidgetKind::Separator => BuiltInWidget::Separator,
            WidgetKind::Metadata => BuiltInWidget::Metadata { content: Vec::new() },
            WidgetKind::Image => BuiltInWidget::Image,
            WidgetKind::H1 => BuiltInWidget::H1 { content: Vec::new() },
            WidgetKind::H2 => BuiltInWidget::H2 { content: Vec::new() },
            WidgetKind::H3 => BuiltInWidget::H3 { content: Vec::new() },
            WidgetKind::H4 => BuiltInWidget::H4 { content: Vec::new() },
            WidgetKind::H5 => BuiltInWidget::H5 { content: Vec::new() },
            WidgetKind::H6 => BuiltInWidget::H6 { content: Vec::new() },
            WidgetKind::HorizontalBreak => BuiltInWidget::HorizontalBreak,
            WidgetKind::CodeBlock => BuiltInWidget::CodeBlock { content: Vec::new() },
            WidgetKind::Code => BuiltInWidget::Code { content: Vec::new() },
            WidgetKind::Content => BuiltInWidget::Content { content: Vec::new() },
            WidgetKind::Detail => BuiltInWidget::Detail { content: Vec::new() },
            WidgetKind::Container => BuiltInWidget::Container { content: Vec::new() },
        }
    }
}

impl BuiltInWidgetWrapper {
    /// The widget's number.
    pub closed spec fn widget_id(&self) -> NativeUiWidgetId {
        self.id
    }

    /// What the widget is.
    pub closed spec fn kind(&self) -> WidgetKind {
        self.inner.kind()
    }

    /// The widgets inside the widget, in their order. A widget that cannot
    /// be a parent has none.
    pub closed spec fn children(&self) -> Seq<BuiltInWidgetWrapper> {
        self.inner.children()
    }

    /// The text of a text, the target of a link, and nothing for any other
    /// widget.
    pub closed spec fn label(&self) -> Seq<char> {
        self.inner.label()
    }

    /// The widget of a built-in type, with nothing inside it. A link takes
    /// its target from the property `href`.
    pub fn widget(id: NativeUiWidgetId, widget_type: &str, properties: Vec<(String, NativeUiPropertyValue)>) -> (made:
        Self)
        requires
            WidgetKind::of_type(widget_type@) is Some,
            WidgetKind::of_type(widget_type@) == Some(WidgetKind::Link) ==> text_property(
                properties@,
                "href"@,
            ) is Some,
        ensures
            made.widget_id() == id,
            Some(made.kind()) == WidgetKind::of_type(widget_type@),
            made.children() == Seq::<BuiltInWidgetWrapper>::empty(),
            made.kind() == WidgetKind::Link ==> Some(made.label()) == text_property(properties@, "href"@),
            made.kind() != WidgetKind::Link ==> made.label() == Seq::<char>::empty(),
    {
        let kind = match WidgetKind::from_type(widget_type) {
            Some(kind) => kind,
            None => unreached(),
        };
        let label = match kind {
            WidgetKind::Link => match find_text_property(&properties, "href") {
                Some(href) => String::from_str(href),
                None => unreached(),
            },
            _ => String::new(),
        };
        BuiltInWidgetWrapper::new(id, BuiltInWidget::empty(kind, label))
    }

    /// A container with nothing inside it.
    pub fn container(id: NativeUiWidgetId) -> (made: Self)
        ensures
            made.widget_id() == id,
            made.kind() == WidgetKind::Container,
            made.children() == Seq::<BuiltInWidgetWrapper>::empty(),
            made.label() == Seq::<char>::empty(),
    {
        BuiltInWidgetWrapper::new(id, BuiltInWidget::Container { content: Vec::new() })
    }

    /// A text.
    pub fn text(id: NativeUiWidgetId, text: &str) -> (made: Self)
        ensures
            made.widget_id() == id,
            made.kind() == WidgetKind::Text,
            made.children() == Seq::<BuiltInWidgetWrapper>::empty(),
            made.label() == text@,
    {
        BuiltInWidgetWrapper::new(id, BuiltInWidget::Text(String::from_str(text)))
    }

    fn new(id: NativeUiWidgetId, widget: BuiltInWidget) -> (made: Self)
        ensures
            made.id == id,
            made.inner == widget,
    {
        BuiltInWidgetWrapper { id, inner: widget }
    }

    fn get(&self) -> (widget: &BuiltInWidget)
        ensures
            *widget == self.inner,
    {
        &self.inner
    }

    /// The widget's number.
    pub fn id(&self) -> (id: NativeUiWidgetId)
        ensures
            id == self.widget_id(),
    {
        self.id
    }

    /// What the widget is.
    pub fn widget_kind(&self) -> (kind: WidgetKind)
        ensures
            kind == self.kind(),
    {
        self.get().tag()
    }

    /// The number of widgets directly inside this one.
    pub fn child_count(&self) -> (count: usize)
        ensures
            count == self.children().len(),
    {
        match self.get().content() {
            Some(content) => content.len(),
            None => 0,
        }
    }

    /// One of the widgets directly inside this one.
    pub fn child(&self, index: usize) -> (child: Option<&BuiltInWidgetWrapper>)
        ensures
            match child {
                Some(child) => index < self.children().len() && *child == self.children()[index as int],
                None => index >= self.children().len(),
            },
    {
        match self.get().content() {
            Some(content) => if index < content.len() {
                Some(&content[index])
            } else {
                None
            },
            None => None,
        }
    }

    /// The text of a text, the target of a link, and nothing for any other
    /// widget.
    pub fn label_text(&self) -> (label: &str)
        ensures
            label@ == self.label(),
    {
        match self.get() {
            BuiltInWidget::Text(text) => text.as_str(),
            BuiltInWidget::Link { href, .. } => href.as_str(),
            _ => {
                proof {
                    reveal_strlit("");
                }
                ""
            },
        }
    }

    /// What a press on the widget does: a link is followed, a tag tells the
    /// plugin, and no other widget can be pressed.
    pub fn press_event(&self) -> (event: Option<BuiltInWidgetEvent>)
        ensures
            match event {
                Some(BuiltInWidgetEvent::LinkClick { href }) => self.kind() == WidgetKind::Link && href@
                    == self.label(),
                Some(BuiltInWidgetEvent::TagClick { widget_id }) => self.kind() == WidgetKind::Tag && widget_id
                    == self.widget_id(),
                None => self.kind() != WidgetKind::Link && self.kind() != WidgetKind::Tag,
            },
    {
        match self.get() {
            BuiltInWidget::Link { href, .. } => Some(BuiltInWidgetEvent::LinkClick { href: href.clone() }),
            BuiltInWidget::Tag { .. } => Some(BuiltInWidgetEvent::TagClick { widget_id: self.id }),
            _ => None,
        }
    }

    /// Puts a widget inside this one, after those that are there.
    pub fn append_child(&mut self, child: BuiltInWidgetWrapper)
        requires
            old(self).kind().can_be_parent(),
        ensures
            final(self).children() == old(self).children().push(child),
            final(self).kind() == old(self).kind(),
            final(self).widget_id() == old(self).widget_id(),
            final(self).label() == old(self).label(),
    {
        match &mut self.inner {
            BuiltInWidget::Link { content, .. } => content.push(child),
            BuiltInWidget::Tag { content } => content.push(child),
            BuiltInWidget::MetadataItem { content } => content.push(child),
            BuiltInWidget::Metadata { content } => content.push(child),
            BuiltInWidget::H1 { content } => content.push(child),
            BuiltInWidget::H2 { content } => content.push(child),
            BuiltInWidget::H3 { content } => content.push(child),
            BuiltInWidget::H4 { content } => content.push(child),
            BuiltInWidget::H5 { content } => content.push(child),
            BuiltInWidget::H6 { content } => content.push(child),
            BuiltInWidget::CodeBlock { content } => content.push(child),
            BuiltInWidget::Code { content } => content.push(child),
            BuiltInWidget::Content { content } => content.push(child),
            BuiltInWidget::Detail { content } => content.push(child),
            BuiltInWidget::TextContent { content } => content.push(child),
            BuiltInWidget::Container { content } => content.push(child),
            BuiltInWidget::Text(_) => unreached(),
            BuiltInWidget::Separator => unreached(),
            BuiltInWidget::Image => unreached(),
            BuiltInWidget::HorizontalBreak => unreached(),
        }
    }

    /// Puts the given widgets inside this one, in place of those that are
    /// there.
    pub fn set_children(&mut self, new_children: Vec<BuiltInWidgetWrapper>)
        requires
            old(self).kind().can_be_parent(),
        ensures
            final(self).children() == new_children@,
            final(self).kind() == old(self).kind(),
            final(self).widget_id() == old(self).widget_id(),
            final(self).label() == old(self).label(),
    {
        match &mut self.inner {
            BuiltInWidget::TextContent { content } => *content = new_children,
            BuiltInWidget::Link { content, .. } => *content = new_children,
            BuiltInWidget::Tag { content } => *content = new_children,
            BuiltInWidget::MetadataItem { content } => *content = new_children,
            BuiltInWidget::Metadata { content } => *content = new_children,
            BuiltInWidget::H1 { content } => *content = new_children,
            BuiltInWidget::H2 { content } => *content = new_children,
            BuiltInWidget::H3 { content } => *content = new_children,
            BuiltInWidget::H4 { content } => *content = new_children,
            BuiltInWidget::H5 { content } => *content = new_children,
            BuiltInWidget::H6 { content } => *content = new_children,
            BuiltInWidget::CodeBlock { content } => *content = new_children,
            BuiltInWidget::Code { content } => *content = new_children,
            BuiltInWidget::Content { content } => *content = new_children,
            BuiltInWidget::Detail { content } => *content = new_children,
            BuiltInWidget::Container { content } => *content = new_children,
            BuiltInWidget::Text(_) => unreached(),
            BuiltInWidget::Separator => unreached(),
            BuiltInWidget::Image => unreached(),
            BuiltInWidget::HorizontalBreak => unreached(),
        }
    }
}

} // verus!
