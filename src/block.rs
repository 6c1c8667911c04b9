use vstd::prelude::*;
use crate::value::Value;

verus! {

/// Compares two texts character by character.
pub fn text_eq(a: &str, b: &str) -> (r: bool)
    ensures
        r == (a@ == b@),
{
    let n = a.unicode_len();
    if n != b.unicode_len() {
        return false;
    }
    let mut i: usize = 0;
    while i < n
        invariant
            n == a@.len() == b@.len(),
            i <= n,
            forall|j: int| 0 <= j < i ==> a@[j] == b@[j],
        decreases n - i,
    {
        if a.get_char(i) != b.get_char(i) {
            return false;
        }
        i = i + 1;
    }
    assert(a@ =~= b@);
    true
}

/// The kinds of block this engine knows.
#[derive(Debug, Copy, Clone, PartialEq, Eq, Structural)]
pub enum Kind {
    WhenFlagClicked,
    WhenBroadcastReceived,
    Broadcast,
    BroadcastAndWait,
    WhenThisSpriteClicked,
    SetVariable,
    ChangeVariable,
    HideVariable,
    ShowVariable,
    Say,
    SayForSecs,
    GoToFrontBack,
    Hide,
    Show,
    SetEffectTo,
    NextCostume,
    ChangeEffectBy,
    SetSizeTo,
    SwitchCostumeTo,
    Costume,
    PenDown,
    PenUp,
    SetPenColorToColor,
    SetPenSizeTo,
    Clear,
    SetPenShadeToNumber,
    SetPenHueToNumber,
    KeyPressed,
    KeyOptions,
    ColorIsTouchingColor,
    TouchingColor,
    TouchingObject,
    TouchingObjectMenu,
    Play,
    Literal,
    Variable,
}

/// The opcode categories this engine knows.
pub open spec fn category_known(c: Seq<char>) -> bool {
    c == "control"@
        || c == "data"@
        || c == "event"@
        || c == "looks"@
        || c == "motion"@
        || c == "operator"@
        || c == "pen"@
        || c == "sensing"@
        || c == "sound"@
}

/// The kind that an opcode's category and operation name select.
pub open spec fn kind_named(c: Seq<char>, name: Seq<char>) -> Option<Kind> {
    if c == "event"@ && name == "whenflagclicked"@ {
        Some(Kind::WhenFlagClicked)
    } else if c == "event"@ && name == "whenbroadcastreceived"@ {
        Some(Kind::WhenBroadcastReceived)
    } else if c == "event"@ && name == "broadcast"@ {
        Some(Kind::Broadcast)
    } else if c == "event"@ && name == "broadcastandwait"@ {
        Some(Kind::BroadcastAndWait)
    } else if c == "event"@ && name == "whenthisspriteclicked"@ {
        Some(Kind::WhenThisSpriteClicked)
    } else if c == "data"@ && name == "setvariableto"@ {
        Some(Kind::SetVariable)
    } else if c == "data"@ && name == "changevariableby"@ {
        Some(Kind::ChangeVariable)
    } else if c == "data"@ && name == "hidevariable"@ {
        Some(Kind::HideVariable)
    } else if c == "data"@ && name == "showvariable"@ {
        Some(Kind::ShowVariable)
    } else if c == "looks"@ && name == "say"@ {
        Some(Kind::Say)
    } else if c == "looks"@ && name == "sayforsecs"@ {
        Some(Kind::SayForSecs)
    } else if c == "looks"@ && name == "gotofrontback"@ {
        Some(Kind::GoToFrontBack)
    } else if c == "looks"@ && name == "hide"@ {
        Some(Kind::Hide)
    } else if c == "looks"@ && name == "show"@ {
        Some(Kind::Show)
    } else if c == "looks"@ && name == "seteffectto"@ {
        Some(Kind::SetEffectTo)
    } else if c == "looks"@ && name == "nextcostume"@ {
        Some(Kind::NextCostume)
    } else if c == "looks"@ && name == "changeeffectby"@ {
        Some(Kind::ChangeEffectBy)
    } else if c == "looks"@ && name == "setsizeto"@ {
        Some(Kind::SetSizeTo)
    } else if c == "looks"@ && name == "switchcostumeto"@ {
        Some(Kind::SwitchCostumeTo)
    } else if c == "looks"@ && name == "costume"@ {
        Some(Kind::Costume)
    } else if c == "pen"@ && name == "penDown"@ {
        Some(Kind::PenDown)
    } else if c == "pen"@ && name == "penUp"@ {
        Some(Kind::PenUp)
    } else if c == "pen"@ && name == "setPenColorToColor"@ {
        Some(Kind::SetPenColorToColor)
    } else if c == "pen"@ && name == "setPenSizeTo"@ {
        Some(Kind::SetPenSizeTo)
    } else if c == "pen"@ && name == "clear"@ {
        Some(Kind::Clear)
    } else if c == "pen"@ && name == "setPenShadeToNumber"@ {
        Some(Kind::SetPenShadeToNumber)
    } else if c == "pen"@ && name == "setPenHueToNumber"@ {
        Some(Kind::SetPenHueToNumber)
    } else if c == "sensing"@ && name == "keypressed"@ {
        Some(Kind::KeyPressed)
    } else if c == "sensing"@ && name == "keyoptions"@ {
        Some(Kind::KeyOptions)
    } else if c == "sensing"@ && name == "coloristouchingcolor"@ {
        Some(Kind::ColorIsTouchingColor)
    } else if c == "sensing"@ && name == "touchingcolor"@ {
        Some(Kind::TouchingColor)
    } else if c == "sensing"@ && name == "touchingobject"@ {
        Some(Kind::TouchingObject)
    } else if c == "sensing"@ && name == "touchingobjectmenu"@ {
        Some(Kind::TouchingObjectMenu)
    } else if c == "sound"@ && name == "play"@ {
        Some(Kind::Play)
    } else {
        None
    }
}

/// Whether `c` is one of the known categories.
pub fn is_known_category(c: &str) -> (r: bool)
    ensures
        r == category_known(c@),
{
    text_eq(c, "control")
        || text_eq(c, "data")
        || text_eq(c, "event")
        || text_eq(c, "looks")
        || text_eq(c, "motion")
        || text_eq(c, "operator")
        || text_eq(c, "pen")
        || text_eq(c, "sensing")
        || text_eq(c, "sound")
}

/// The kind that an opcode's category and operation name select.
pub fn lookup_kind(c: &str, name: &str) -> (r: Option<Kind>)
    ensures
        r == kind_named(c@, name@),
{
    if text_eq(c, "event") {
        if text_eq(name, "whenflagclicked") {
            return Some(Kind::WhenFlagClicked);
        }
        if text_eq(name, "whenbroadcastreceived") {
            return Some(Kind::WhenBroadcastReceived);
        }
        if text_eq(name, "broadcast") {
            return Some(Kind::Broadcast);
        }
        if text_eq(name, "broadcastandwait") {
            return Some(Kind::BroadcastAndWait);
        }
        if text_eq(name, "whenthisspriteclicked") {
            return Some(Kind::WhenThisSpriteClicked);
        }
    }
    if text_eq(c, "data") {
        if text_eq(name, "setvariableto") {
            return Some(Kind::SetVariable);
        }
        if text_eq(name, "changevariableby") {
            return Some(Kind::ChangeVariable);
        }
        if text_eq(name, "hidevariable") {
            return Some(Kind::HideVariable);
        }
        if text_eq(name, "showvariable") {
            return Some(Kind::ShowVariable);
        }
    }
    if text_eq(c, "looks") {
        if text_eq(name, "say") {
            return Some(Kind::Say);
        }
        if text_eq(name, "sayforsecs") {
            return Some(Kind::SayForSecs);
        }
        if text_eq(name, "gotofrontback") {
            return Some(Kind::GoToFrontBack);
        }
        if text_eq(name, "hide") {
            return Some(Kind::Hide);
        }
        if text_eq(name, "show") {
            return Some(Kind::Show);
        }
        if text_eq(name, "seteffectto") {
            return Some(Kind::SetEffectTo);
        }
        if text_eq(name, "nextcostume") {
            return Some(Kind::NextCostume);
        }
        if text_eq(name, "changeeffectby") {
            return Some(Kind::ChangeEffectBy);
        }
        if text_eq(name, "setsizeto") {
            return Some(Kind::SetSizeTo);
        }
        if text_eq(name, "switchcostumeto") {
            return Some(Kind::SwitchCostumeTo);
        }
        if text_eq(name, "costume") {
            return Some(Kind::Costume);
        }
    }
    if text_eq(c, "pen") {
        if text_eq(name, "penDown") {
            return Some(Kind::PenDown);
        }
        if text_eq(name, "penUp") {
            return Some(Kind::PenUp);
        }
        if text_eq(name, "setPenColorToColor") {
            return Some(Kind::SetPenColorToColor);
        }
        if text_eq(name, "setPenSizeTo") {
            return Some(Kind::SetPenSizeTo);
        }
        if text_eq(name, "clear") {
            return Some(Kind::Clear);
        }
        if text_eq(name, "setPenShadeToNumber") {
            return Some(Kind::SetPenShadeToNumber);
        }
        if text_eq(name, "setPenHueToNumber") {
            return Some(Kind::SetPenHueToNumber);
        }
    }
    if text_eq(c, "sensing") {
        if text_eq(name, "keypressed") {
            return Some(Kind::KeyPressed);
        }
        if text_eq(name, "keyoptions") {
            return Some(Kind::KeyOptions);
        }
        if text_eq(name, "coloristouchingcolor") {
            return Some(Kind::ColorIsTouchingColor);
        }
        if text_eq(name, "touchingcolor") {
            return Some(Kind::TouchingColor);
        }
        if text_eq(name, "touchingobject") {
            return Some(Kind::TouchingObject);
        }
        if text_eq(name, "touchingobjectmenu") {
            return Some(Kind::TouchingObjectMenu);
        }
    }
    if text_eq(c, "sound") {
        if text_eq(name, "play") {
            return Some(Kind::Play);
        }
    }
    None
}

/// The name a kind goes by in introspection.
pub open spec fn kind_name(k: Kind) -> Seq<char> {
    match k {
        Kind::WhenFlagClicked => "WhenFlagClicked"@,
        Kind::WhenBroadcastReceived => "WhenBroadcastReceived"@,
        Kind::Broadcast => "Broadcast"@,
        Kind::BroadcastAndWait => "BroadcastAndWait"@,
        Kind::WhenThisSpriteClicked => "WhenThisSpriteClicked"@,
        Kind::SetVariable => "SetVariable"@,
        Kind::ChangeVariable => "ChangeVariable"@,
        Kind::HideVariable => "HideVariable"@,
        Kind::ShowVariable => "ShowVariable"@,
        Kind::Say => "Say"@,
        Kind::SayForSecs => "SayForSecs"@,
        Kind::GoToFrontBack => "GoToFrontBack"@,
        Kind::Hide => "Hide"@,
        Kind::Show => "Show"@,
        Kind::SetEffectTo => "SetEffectTo"@,
        Kind::NextCostume => "NextCostume"@,
        Kind::ChangeEffectBy => "ChangeEffectBy"@,
        Kind::SetSizeTo => "SetSizeTo"@,
        Kind::SwitchCostumeTo => "SwitchCostumeTo"@,
        Kind::Costume => "Costume"@,
        Kind::PenDown => "PenDown"@,
        Kind::PenUp => "PenUp"@,
        Kind::SetPenColorToColor => "SetPenColorToColor"@,
        Kind::SetPenSizeTo => "SetPenSizeTo"@,
        Kind::Clear => "Clear"@,
        Kind::SetPenShadeToNumber => "SetPenShadeToNumber"@,
        Kind::SetPenHueToNumber => "SetPenHueToNumber"@,
        Kind::KeyPressed => "KeyPressed"@,
        Kind::KeyOptions => "KeyOptions"@,
        Kind::ColorIsTouchingColor => "ColorIsTouchingColor"@,
        Kind::TouchingColor => "TouchingColor"@,
        Kind::TouchingObject => "TouchingObject"@,
        Kind::TouchingObjectMenu => "TouchingObjectMenu"@,
        Kind::Play => "Play"@,
        Kind::Literal => "Literal"@,
        Kind::Variable => "Variable"@,
    }
}

pub fn name_of(k: Kind) -> (r: String)
    ensures
        r@ == kind_name(k),
{
    match k {
        Kind::WhenFlagClicked => String::from_str("WhenFlagClicked"),
        Kind::WhenBroadcastReceived => String::from_str("WhenBroadcastReceived"),
        Kind::Broadcast => String::from_str("Broadcast"),
        Kind::BroadcastAndWait => String::from_str("BroadcastAndWait"),
        Kind::WhenThisSpriteClicked => String::from_str("WhenThisSpriteClicked"),
        Kind::SetVariable => String::from_str("SetVariable"),
        Kind::ChangeVariable => String::from_str("ChangeVariable"),
        Kind::HideVariable => String::from_str("HideVariable"),
        Kind::ShowVariable => String::from_str("ShowVariable"),
        Kind::Say => String::from_str("Say"),
        Kind::SayForSecs => String::from_str("SayForSecs"),
        Kind::GoToFrontBack => String::from_str("GoToFrontBack"),
        Kind::Hide => String::from_str("Hide"),
        Kind::Show => String::from_str("Show"),
        Kind::SetEffectTo => String::from_str("SetEffectTo"),
        Kind::NextCostume => String::from_str("NextCostume"),
        Kind::ChangeEffectBy => String::from_str("ChangeEffectBy"),
        Kind::SetSizeTo => String::from_str("SetSizeTo"),
        Kind::SwitchCostumeTo => String::from_str("SwitchCostumeTo"),
        Kind::Costume => String::from_str("Costume"),
        Kind::PenDown => String::from_str("PenDown"),
        Kind::PenUp => String::from_str("PenUp"),
        Kind::SetPenColorToColor => String::from_str("SetPenColorToColor"),
        Kind::SetPenSizeTo => String::from_str("SetPenSizeTo"),
        Kind::Clear => String::from_str("Clear"),
        Kind::SetPenShadeToNumber => String::from_str("SetPenShadeToNumber"),
        Kind::SetPenHueToNumber => String::from_str("SetPenHueToNumber"),
        Kind::KeyPressed => String::from_str("KeyPressed"),
        Kind::KeyOptions => String::from_str("KeyOptions"),
        Kind::ColorIsTouchingColor => String::from_str("ColorIsTouchingColor"),
        Kind::TouchingColor => String::from_str("TouchingColor"),
        Kind::TouchingObject => String::from_str("TouchingObject"),
        Kind::TouchingObjectMenu => String::from_str("TouchingObjectMenu"),
        Kind::Play => String::from_str("Play"),
        Kind::Literal => String::from_str("Literal"),
        Kind::Variable => String::from_str("Variable"),
    }
}

/// Whether a kind links to a successor through a `next` slot.
pub open spec fn takes_next(k: Kind) -> bool {
    match k {
        Kind::HideVariable | Kind::ShowVariable | Kind::Costume | Kind::KeyPressed
        | Kind::KeyOptions | Kind::ColorIsTouchingColor | Kind::TouchingColor
        | Kind::TouchingObject | Kind::TouchingObjectMenu | Kind::Literal | Kind::Variable => false,
        _ => true,
    }
}

/// The input slots each kind wires; any other key is ignored.
pub open spec fn takes_input(k: Kind, key: Seq<char>) -> bool {
    match k {
        Kind::Broadcast | Kind::BroadcastAndWait => key == "BROADCAST_INPUT"@,
        Kind::SetVariable | Kind::ChangeVariable => key == "VALUE"@,
        Kind::Say => key == "MESSAGE"@,
        Kind::SayForSecs => key == "MESSAGE"@ || key == "SECS"@,
        Kind::SetSizeTo | Kind::SetPenSizeTo => key == "SIZE"@,
        Kind::SetPenColorToColor | Kind::TouchingColor => key == "COLOR"@,
        Kind::SetPenShadeToNumber => key == "SHADE"@,
        Kind::SetPenHueToNumber => key == "HUE"@,
        Kind::KeyPressed => key == "KEY_OPTION"@,
        Kind::TouchingObject => key == "TOUCHINGOBJECTMENU"@,
        _ => false,
    }
}

/// The field slot a kind reads, if any.
pub open spec fn field_key(k: Kind) -> Option<Seq<char>> {
    match k {
        Kind::WhenBroadcastReceived => Some("BROADCAST_OPTION"@),
        Kind::SetVariable | Kind::ChangeVariable => Some("VARIABLE"@),
        Kind::KeyOptions => Some("KEY_OPTION"@),
        Kind::TouchingObjectMenu => Some("TOUCHINGOBJECTMENU"@),
        _ => None,
    }
}

/// The field value a kind starts with.
pub open spec fn default_field(k: Kind) -> Seq<char> {
    match k {
        Kind::KeyOptions => "space"@,
        Kind::TouchingObjectMenu => "_mouse_"@,
        _ => Seq::empty(),
    }
}

pub fn accepts_input(k: Kind, key: &str) -> (r: bool)
    ensures
        r == takes_input(k, key@),
{
    match k {
        Kind::Broadcast | Kind::BroadcastAndWait => text_eq(key, "BROADCAST_INPUT"),
        Kind::SetVariable | Kind::ChangeVariable => text_eq(key, "VALUE"),
        Kind::Say => text_eq(key, "MESSAGE"),
        Kind::SayForSecs => text_eq(key, "MESSAGE") || text_eq(key, "SECS"),
        Kind::SetSizeTo | Kind::SetPenSizeTo => text_eq(key, "SIZE"),
        Kind::SetPenColorToColor | Kind::TouchingColor => text_eq(key, "COLOR"),
        Kind::SetPenShadeToNumber => text_eq(key, "SHADE"),
        Kind::SetPenHueToNumber => text_eq(key, "HUE"),
        Kind::KeyPressed => text_eq(key, "KEY_OPTION"),
        Kind::TouchingObject => text_eq(key, "TOUCHINGOBJECTMENU"),
        _ => false,
    }
}

pub fn accepts_next(k: Kind) -> (r: bool)
    ensures
        r == takes_next(k),
{
    match k {
        Kind::HideVariable | Kind::ShowVariable | Kind::Costume | Kind::KeyPressed
        | Kind::KeyOptions | Kind::ColorIsTouchingColor | Kind::TouchingColor
        | Kind::TouchingObject | Kind::TouchingObjectMenu | Kind::Literal | Kind::Variable => false,
        _ => true,
    }
}

pub fn accepts_field(k: Kind, key: &str) -> (r: bool)
    ensures
        r == (field_key(k) == Some(key@)),
{
    match k {
        Kind::WhenBroadcastReceived => text_eq(key, "BROADCAST_OPTION"),
        Kind::SetVariable | Kind::ChangeVariable => text_eq(key, "VARIABLE"),
        Kind::KeyOptions => text_eq(key, "KEY_OPTION"),
        Kind::TouchingObjectMenu => text_eq(key, "TOUCHINGOBJECTMENU"),
        _ => false,
    }
}

/// The child wired last under `key`.
pub open spec fn input_at(s: Seq<(String, usize)>, key: Seq<char>) -> Option<usize>
    decreases s.len(),
{
    if s.len() == 0 {
        None
    } else if s.last().0@ == key {
        Some(s.last().1)
    } else {
        input_at(s.drop_last(), key)
    }
}

/// The name and id of a block.
#[derive(Debug, Clone, PartialEq)]
pub struct BlockInfo {
    pub name: String,
    pub id: String,
}

/// A read-only picture of a block and everything wired into it, for tooling.
#[derive(Debug, PartialEq)]
pub struct BlockInputs {
    pub info: BlockInfo,
    pub fields: Vec<(String, String)>,
    pub inputs: Vec<(String, BlockInputs)>,
    pub stacks: Vec<(String, BlockInputs)>,
}

/// One node of a block graph. Children and successors are handles into the graph.
#[derive(Debug)]
pub struct Block {
    pub kind: Kind,
    pub id: String,
    pub next: Option<usize>,
    pub inputs: Vec<(String, usize)>,
    pub field: String,
    pub literal: Option<Value>,
    pub started: bool,
}

impl Block {
    /// The input wired under `key`, if any.
    pub open spec fn input(&self, key: Seq<char>) -> Option<usize> {
        input_at(self.inputs@, key)
    }

    /// A block of `kind` with nothing wired and the field set to `field`.
    fn blank(kind: Kind, id: String, field: String) -> (r: Block)
        ensures
            r.kind == kind,
            r.id@ == id@,
            r.next is None,
            r.inputs@.len() == 0,
            r.field == field,
            r.literal is None,
            !r.started,
    {
        Block { kind, id, next: None, inputs: Vec::new(), field, literal: None, started: false }
    }

    /// A fresh block of `kind`, with nothing wired.
    pub fn new(kind: Kind, id: String) -> (r: Block)
        ensures
            r.kind == kind,
            r.id@ == id@,
            r.next is None,
            r.inputs@.len() == 0,
            r.field@ == default_field(kind),
            r.literal is None,
            !r.started,
    {
        match kind {
            Kind::WhenFlagClicked => WhenFlagClicked::new(id),
            Kind::WhenBroadcastReceived => WhenBroadcastReceived::new(id),
            Kind::Broadcast => Broadcast::new(id),
            Kind::BroadcastAndWait => BroadcastAndWait::new(id),
            Kind::WhenThisSpriteClicked => WhenThisSpriteClicked::new(id),
            Kind::SetVariable => SetVariable::new(id),
            Kind::ChangeVariable => ChangeVariable::new(id),
            Kind::HideVariable => HideVariable::new(id),
            Kind::ShowVariable => ShowVariable::new(id),
            Kind::Say => Say::new(id),
            Kind::SayForSecs => SayForSecs::new(id),
            Kind::GoToFrontBack => GoToFrontBack::new(id),
            Kind::Hide => Hide::new(id),
            Kind::Show => Show::new(id),
            Kind::SetEffectTo => SetEffectTo::new(id),
            Kind::NextCostume => NextCostume::new(id),
            Kind::ChangeEffectBy => ChangeEffectBy::new(id),
            Kind::SetSizeTo => SetSizeTo::new(id),
            Kind::SwitchCostumeTo => SwitchCostumeTo::new(id),
            Kind::Costume => Costume::new(id),
            Kind::PenDown => PenDown::new(id),
            Kind::PenUp => PenUp::new(id),
            Kind::SetPenColorToColor => SetPenColorToColor::new(id),
            Kind::SetPenSizeTo => SetPenSizeTo::new(id),
            Kind::Clear => Clear::new(id),
            Kind::SetPenShadeToNumber => SetPenShadeToNumber::new(id),
            Kind::SetPenHueToNumber => SetPenHueToNumber::new(id),
            Kind::KeyPressed => KeyPressed::new(id),
            Kind::KeyOptions => KeyOptions::new(id),
            Kind::ColorIsTouchingColor => ColorIsTouchingColor::new(id),
            Kind::TouchingColor => TouchingColor::new(id),
            Kind::TouchingObject => TouchingObject::new(id),
            Kind::TouchingObjectMenu => TouchingObjectMenu::new(id),
            Kind::Play => Play::new(id),
            Kind::Literal | Kind::Variable => Block::blank(kind, id, String::new()),
        }
    }

    /// A reporter that yields `value`.
    pub fn literal(value: Value) -> (r: Block)
        requires
            value.wf(),
        ensures
            r.kind == Kind::Literal,
            r.id@.len() == 0,
            r.next is None,
            r.inputs@.len() == 0,
            r.literal == Some(value),
            !r.started,
    {
        Block {
            kind: Kind::Literal,
            id: String::new(),
            next: None,
            inputs: Vec::new(),
            field: String::new(),
            literal: Some(value),
            started: false,
        }
    }

    /// A reporter that yields the variable `variable_id`.
    pub fn variable(variable_id: String) -> (r: Block)
        ensures
            r.kind == Kind::Variable,
            r.id@.len() == 0,
            r.next is None,
            r.inputs@.len() == 0,
            r.field@ == variable_id@,
            r.literal is None,
            !r.started,
    {
        Block {
            kind: Kind::Variable,
            id: String::new(),
            next: None,
            inputs: Vec::new(),
            field: variable_id,
            literal: None,
            started: false,
        }
    }

    /// Wires `child` into the input slot `key`; a slot the kind does not have is ignored.
    pub fn set_input(&mut self, key: &str, child: usize)
        ensures
            final(self).kind == old(self).kind,
            final(self).id == old(self).id,
            final(self).next == old(self).next,
            final(self).field == old(self).field,
            final(self).literal == old(self).literal,
            final(self).started == old(self).started,
            takes_input(old(self).kind, key@) ==> final(self).inputs@.len() == old(self).inputs@.len()
                + 1 && final(self).inputs@.drop_last() == old(self).inputs@
                && final(self).inputs@.last().0@ == key@ && final(self).inputs@.last().1 == child,
            !takes_input(old(self).kind, key@) ==> final(self).inputs@ == old(self).inputs@,
    {
        if accepts_input(self.kind, key) {
            self.inputs.push((String::from_str(key), child));
            assert(self.inputs@.drop_last() =~= old(self).inputs@);
        }
    }

    /// Wires the successor; only the `next` slot of a kind that has one is taken.
    pub fn set_substack(&mut self, key: &str, child: usize)
        ensures
            final(self).kind == old(self).kind,
            final(self).id == old(self).id,
            final(self).inputs == old(self).inputs,
            final(self).field == old(self).field,
            final(self).literal == old(self).literal,
            final(self).started == old(self).started,
            (key@ == "next"@ && takes_next(old(self).kind)) ==> final(self).next == Some(child),
            !(key@ == "next"@ && takes_next(old(self).kind)) ==> final(self).next == old(self).next,
    {
        if text_eq(key, "next") && accepts_next(self.kind) {
            self.next = Some(child);
        }
    }

    /// Stores a field value; a field the kind does not read is ignored.
    pub fn set_field(&mut self, key: &str, value: String)
        ensures
            final(self).kind == old(self).kind,
            final(self).id == old(self).id,
            final(self).next == old(self).next,
            final(self).inputs == old(self).inputs,
            final(self).literal == old(self).literal,
            final(self).started == old(self).started,
            field_key(old(self).kind) == Some(key@) ==> final(self).field@ == value@,
            field_key(old(self).kind) != Some(key@) ==> final(self).field == old(self).field,
    {
        if accepts_field(self.kind, key) {
            self.field = value;
        }
    }

    /// The child wired under `key`.
    pub fn get_input(&self, key: &str) -> (r: Option<usize>)
        ensures
            r == self.input(key@),
    {
        let mut i = self.inputs.len();
        assert(self.inputs@.subrange(0, i as int) =~= self.inputs@);
        while i > 0
            invariant
                i <= self.inputs@.len(),
                input_at(self.inputs@.subrange(0, i as int), key@) == input_at(self.inputs@, key@),
            decreases i,
        {
            let ghost s = self.inputs@.subrange(0, i as int);
            if text_eq(self.inputs[i - 1].0.as_str(), key) {
                assert(s.last() == self.inputs@[i - 1]);
                return Some(self.inputs[i - 1].1);
            }
            assert(s.drop_last() =~= self.inputs@.subrange(0, i - 1));
            i = i - 1;
        }
        None
    }

    pub fn block_info(&self) -> (r: BlockInfo)
        ensures
            r.name@ == kind_name(self.kind),
            r.id@ == self.id@,
    {
        BlockInfo { name: name_of(self.kind), id: self.id.clone() }
    }
}

/// The `WhenFlagClicked` block.
pub struct WhenFlagClicked;

impl WhenFlagClicked {
    pub fn new(id: String) -> (r: Block)
        ensures
            r.kind == Kind::WhenFlagClicked,
            r.id@ == id@,
            r.next is None,
            r.inputs@.len() == 0,
            r.field@ == default_field(Kind::WhenFlagClicked),
            r.literal is None,
            !r.started,
    {
        Block::blank(Kind::WhenFlagClicked, id, String::new())
    }
}

/// The `WhenBroadcastReceived` block.
pub struct WhenBroadcastReceived;

impl WhenBroadcastReceived {
    pub fn new(id: String) -> (r: Block)
        ensures
            r.kind == Kind::WhenBroadcastReceived,
            r.id@ == id@,
            r.next is None,
            r.inputs@.len() == 0,
            r.field@ == default_field(Kind::WhenBroadcastReceived),
            r.literal is None,
            !r.started,
    {
        Block::blank(Kind::WhenBroadcastReceived, id, String::new())
    }
}

/// The `Broadcast` block.
pub struct Broadcast;

impl Broadcast {
    pub fn new(id: String) -> (r: Block)
        ensures
            r.kind == Kind::Broadcast,
            r.id@ == id@,
            r.next is None,
            r.inputs@.len() == 0,
            r.field@ == default_field(Kind::Broadcast),
            r.literal is None,
            !r.started,
    {
        Block::blank(Kind::Broadcast, id, String::new())
    }
}

/// The `BroadcastAndWait` block.
pub struct BroadcastAndWait;

impl BroadcastAndWait {
    pub fn new(id: String) -> (r: Block)
        ensures
            r.kind == Kind::BroadcastAndWait,
            r.id@ == id@,
            r.next is None,
            r.inputs@.len() == 0,
            r.field@ == default_field(Kind::BroadcastAndWait),
            r.literal is None,
            !r.started,
    {
        Block::blank(Kind::BroadcastAndWait, id, String::new())
    }
}

/// The `WhenThisSpriteClicked` block.
pub struct WhenThisSpriteClicked;

impl WhenThisSpriteClicked {
    pub fn new(id: String) -> (r: Block)
        ensures
            r.kind == Kind::WhenThisSpriteClicked,
            r.id@ == id@,
            r.next is None,
            r.inputs@.len() == 0,
            r.field@ == default_field(Kind::WhenThisSpriteClicked),
            r.literal is None,
            !r.started,
    {
        Block::blank(Kind::WhenThisSpriteClicked, id, String::new())
    }
}

/// The `SetVariable` block.
pub struct SetVariable;

impl SetVariable {
    pub fn new(id: String) -> (r: Block)
        ensures
            r.kind == Kind::SetVariable,
            r.id@ == id@,
            r.next is None,
            r.inputs@.len() == 0,
            r.field@ == default_field(Kind::SetVariable),
            r.literal is None,
            !r.started,
    {
        Block::blank(Kind::SetVariable, id, String::new())
    }
}

/// The `ChangeVariable` block.
pub struct ChangeVariable;

impl ChangeVariable {
    pub fn new(id: String) -> (r: Block)
        ensures
            r.kind == Kind::ChangeVariable,
            r.id@ == id@,
            r.next is None,
            r.inputs@.len() == 0,
            r.field@ == default_field(Kind::ChangeVariable),
            r.literal is None,
            !r.started,
    {
        Block::blank(Kind::ChangeVariable, id, String::new())
    }
}

/// The `HideVariable` block.
pub struct HideVariable;

impl HideVariable {
    pub fn new(id: String) -> (r: Block)
        ensures
            r.kind == Kind::HideVariable,
            r.id@ == id@,
            r.next is None,
            r.inputs@.len() == 0,
            r.field@ == default_field(Kind::HideVariable),
            r.literal is None,
            !r.started,
    {
        Block::blank(Kind::HideVariable, id, String::new())
    }
}

/// The `ShowVariable` block.
pub struct ShowVariable;

impl ShowVariable {
    pub fn new(id: String) -> (r: Block)
        ensures
            r.kind == Kind::ShowVariable,
            r.id@ == id@,
            r.next is None,
            r.inputs@.len() == 0,
            r.field@ == default_field(Kind::ShowVariable),
            r.literal is None,
            !r.started,
    {
        Block::blank(Kind::ShowVariable, id, String::new())
    }
}

/// The `Say` block.
pub struct Say;

impl Say {
    pub fn new(id: String) -> (r: Block)
        ensures
            r.kind == Kind::Say,
            r.id@ == id@,
            r.next is None,
            r.inputs@.len() == 0,
            r.field@ == default_field(Kind::Say),
            r.literal is None,
            !r.started,
    {
        Block::blank(Kind::Say, id, String::new())
    }
}

/// The `SayForSecs` block.
pub struct SayForSecs;

impl SayForSecs {
    pub fn new(id: String) -> (r: Block)
        ensures
            r.kind == Kind::SayForSecs,
            r.id@ == id@,
            r.next is None,
            r.inputs@.len() == 0,
            r.field@ == default_field(Kind::SayForSecs),
            r.literal is None,
            !r.started,
    {
        Block::blank(Kind::SayForSecs, id, String::new())
    }
}

/// The `GoToFrontBack` block.
pub struct GoToFrontBack;

impl GoToFrontBack {
    pub fn new(id: String) -> (r: Block)
        ensures
            r.kind == Kind::GoToFrontBack,
            r.id@ == id@,
            r.next is None,
            r.inputs@.len() == 0,
            r.field@ == default_field(Kind::GoToFrontBack),
            r.literal is None,
            !r.started,
    {
        Block::blank(Kind::GoToFrontBack, id, String::new())
    }
}

/// The `Hide` block.
pub struct Hide;

impl Hide {
    pub fn new(id: String) -> (r: Block)
        ensures
            r.kind == Kind::Hide,
            r.id@ == id@,
            r.next is None,
            r.inputs@.len() == 0,
            r.field@ == default_field(Kind::Hide),
            r.literal is None,
            !r.started,
    {
        Block::blank(Kind::Hide, id, String::new())
    }
}

/// The `Show` block.
pub struct Show;

impl Show {
    pub fn new(id: String) -> (r: Block)
        ensures
            r.kind == Kind::Show,
            r.id@ == id@,
            r.next is None,
            r.inputs@.len() == 0,
            r.field@ == default_field(Kind::Show),
            r.literal is None,
            !r.started,
    {
        Block::blank(Kind::Show, id, String::new())
    }
}

/// The `SetEffectTo` block.
pub struct SetEffectTo;

impl SetEffectTo {
    pub fn new(id: String) -> (r: Block)
        ensures
            r.kind == Kind::SetEffectTo,
            r.id@ == id@,
            r.next is None,
            r.inputs@.len() == 0,
            r.field@ == default_field(Kind::SetEffectTo),
            r.literal is None,
            !r.started,
    {
        Block::blank(Kind::SetEffectTo, id, String::new())
    }
}

/// The `NextCostume` block.
pub struct NextCostume;

impl NextCostume {
    pub fn new(id: String) -> (r: Block)
        ensures
            r.kind == Kind::NextCostume,
            r.id@ == id@,
            r.next is None,
            r.inputs@.len() == 0,
            r.field@ == default_field(Kind::NextCostume),
            r.literal is None,
            !r.started,
    {
        Block::blank(Kind::NextCostume, id, String::new())
    }
}

/// The `ChangeEffectBy` block.
pub struct ChangeEffectBy;

impl ChangeEffectBy {
    pub fn new(id: String) -> (r: Block)
        ensures
            r.kind == Kind::ChangeEffectBy,
            r.id@ == id@,
            r.next is None,
            r.inputs@.len() == 0,
            r.field@ == default_field(Kind::ChangeEffectBy),
            r.literal is None,
            !r.started,
    {
        Block::blank(Kind::ChangeEffectBy, id, String::new())
    }
}

/// The `SetSizeTo` block.
pub struct SetSizeTo;

impl SetSizeTo {
    pub fn new(id: String) -> (r: Block)
        ensures
            r.kind == Kind::SetSizeTo,
            r.id@ == id@,
            r.next is None,
            r.inputs@.len() == 0,
            r.field@ == default_field(Kind::SetSizeTo),
            r.literal is None,
            !r.started,
    {
        Block::blank(Kind::SetSizeTo, id, String::new())
    }
}

/// The `SwitchCostumeTo` block.
pub struct SwitchCostumeTo;

impl SwitchCostumeTo {
    pub fn new(id: String) -> (r: Block)
        ensures
            r.kind == Kind::SwitchCostumeTo,
            r.id@ == id@,
            r.next is None,
            r.inputs@.len() == 0,
            r.field@ == default_field(Kind::SwitchCostumeTo),
            r.literal is None,
            !r.started,
    {
        Block::blank(Kind::SwitchCostumeTo, id, String::new())
    }
}

/// The `Costume` block.
pub struct Costume;

impl Costume {
    pub fn new(id: String) -> (r: Block)
        ensures
            r.kind == Kind::Costume,
            r.id@ == id@,
            r.next is None,
            r.inputs@.len() == 0,
            r.field@ == default_field(Kind::Costume),
            r.literal is None,
            !r.started,
    {
        Block::blank(Kind::Costume, id, String::new())
    }
}

/// The `PenDown` block.
pub struct PenDown;

impl PenDown {
    pub fn new(id: String) -> (r: Block)
        ensures
            r.kind == Kind::PenDown,
            r.id@ == id@,
            r.next is None,
            r.inputs@.len() == 0,
            r.field@ == default_field(Kind::PenDown),
            r.literal is None,
            !r.started,
    {
        Block::blank(Kind::PenDown, id, String::new())
    }
}

/// The `PenUp` block.
pub struct PenUp;

impl PenUp {
    pub fn new(id: String) -> (r: Block)
        ensures
            r.kind == Kind::PenUp,
            r.id@ == id@,
            r.next is None,
            r.inputs@.len() == 0,
            r.field@ == default_field(Kind::PenUp),
            r.literal is None,
            !r.started,
    {
        Block::blank(Kind::PenUp, id, String::new())
    }
}

/// The `SetPenColorToColor` block.
pub struct SetPenColorToColor;

impl SetPenColorToColor {
    pub fn new(id: String) -> (r: Block)
        ensures
            r.kind == Kind::SetPenColorToColor,
            r.id@ == id@,
            r.next is None,
            r.inputs@.len() == 0,
            r.field@ == default_field(Kind::SetPenColorToColor),
            r.literal is None,
            !r.started,
    {
        Block::blank(Kind::SetPenColorToColor, id, String::new())
    }
}

/// The `SetPenSizeTo` block.
pub struct SetPenSizeTo;

impl SetPenSizeTo {
    pub fn new(id: String) -> (r: Block)
        ensures
            r.kind == Kind::SetPenSizeTo,
            r.id@ == id@,
            r.next is None,
            r.inputs@.len() == 0,
            r.field@ == default_field(Kind::SetPenSizeTo),
            r.literal is None,
            !r.started,
    {
        Block::blank(Kind::SetPenSizeTo, id, String::new())
    }
}

/// The `Clear` block.
pub struct Clear;

impl Clear {
    pub fn new(id: String) -> (r: Block)
        ensures
            r.kind == Kind::Clear,
            r.id@ == id@,
            r.next is None,
            r.inputs@.len() == 0,
            r.field@ == default_field(Kind::Clear),
            r.literal is None,
            !r.started,
    {
        Block::blank(Kind::Clear, id, String::new())
    }
}

/// The `SetPenShadeToNumber` block.
pub struct SetPenShadeToNumber;

impl SetPenShadeToNumber {
    pub fn new(id: String) -> (r: Block)
        ensures
            r.kind == Kind::SetPenShadeToNumber,
            r.id@ == id@,
            r.next is None,
            r.inputs@.len() == 0,
            r.field@ == default_field(Kind::SetPenShadeToNumber),
            r.literal is None,
            !r.started,
    {
        Block::blank(Kind::SetPenShadeToNumber, id, String::new())
    }
}

/// The `SetPenHueToNumber` block.
pub struct SetPenHueToNumber;

impl SetPenHueToNumber {
    pub fn new(id: String) -> (r: Block)
        ensures
            r.kind == Kind::SetPenHueToNumber,
            r.id@ == id@,
            r.next is None,
            r.inputs@.len() == 0,
            r.field@ == default_field(Kind::SetPenHueToNumber),
            r.literal is None,
            !r.started,
    {
        Block::blank(Kind::SetPenHueToNumber, id, String::new())
    }
}

/// The `KeyPressed` block.
pub struct KeyPressed;

impl KeyPressed {
    pub fn new(id: String) -> (r: Block)
        ensures
            r.kind == Kind::KeyPressed,
            r.id@ == id@,
            r.next is None,
            r.inputs@.len() == 0,
            r.field@ == default_field(Kind::KeyPressed),
            r.literal is None,
            !r.started,
    {
        Block::blank(Kind::KeyPressed, id, String::new())
    }
}

/// The `KeyOptions` block.
pub struct KeyOptions;

impl KeyOptions {
    /// Reports the chosen key; the space key until a field says otherwise.
    pub fn new(id: String) -> (r: Block)
        ensures
            r.kind == Kind::KeyOptions,
            r.id@ == id@,
            r.next is None,
            r.inputs@.len() == 0,
            r.field@ == default_field(Kind::KeyOptions),
            r.literal is None,
            !r.started,
    {
        Block::blank(Kind::KeyOptions, id, String::from_str("space"))
    }
}

/// The `ColorIsTouchingColor` block.
pub struct ColorIsTouchingColor;

impl ColorIsTouchingColor {
    pub fn new(id: String) -> (r: Block)
        ensures
            r.kind == Kind::ColorIsTouchingColor,
            r.id@ == id@,
            r.next is None,
            r.inputs@.len() == 0,
            r.field@ == default_field(Kind::ColorIsTouchingColor),
            r.literal is None,
            !r.started,
    {
        Block::blank(Kind::ColorIsTouchingColor, id, String::new())
    }
}

/// The `TouchingColor` block.
pub struct TouchingColor;

impl TouchingColor {
    pub fn new(id: String) -> (r: Block)
        ensures
            r.kind == Kind::TouchingColor,
            r.id@ == id@,
            r.next is None,
            r.inputs@.len() == 0,
            r.field@ == default_field(Kind::TouchingColor),
            r.literal is None,
            !r.started,
    {
        Block::blank(Kind::TouchingColor, id, String::new())
    }
}

/// The `TouchingObject` block.
pub struct TouchingObject;

impl TouchingObject {
    pub fn new(id: String) -> (r: Block)
        ensures
            r.kind == Kind::TouchingObject,
            r.id@ == id@,
            r.next is None,
            r.inputs@.len() == 0,
            r.field@ == default_field(Kind::TouchingObject),
            r.literal is None,
            !r.started,
    {
        Block::blank(Kind::TouchingObject, id, String::new())
    }
}

/// The `TouchingObjectMenu` block.
pub struct TouchingObjectMenu;

impl TouchingObjectMenu {
    /// Reports the chosen object; the mouse pointer until a field says otherwise.
    pub fn new(id: String) -> (r: Block)
        ensures
            r.kind == Kind::TouchingObjectMenu,
            r.id@ == id@,
            r.next is None,
            r.inputs@.len() == 0,
            r.field@ == default_field(Kind::TouchingObjectMenu),
            r.literal is None,
            !r.started,
    {
        Block::blank(Kind::TouchingObjectMenu, id, String::from_str("_mouse_"))
    }
}

/// The `Play` block.
pub struct Play;

impl Play {
    pub fn new(id: String) -> (r: Block)
        ensures
            r.kind == Kind::Play,
            r.id@ == id@,
            r.next is None,
            r.inputs@.len() == 0,
            r.field@ == default_field(Kind::Play),
            r.literal is None,
            !r.started,
    {
        Block::blank(Kind::Play, id, String::new())
    }
}

/// Every handle the block holds points below `bound`.
pub open spec fn handles_below(b: Block, bound: int) -> bool {
    &&& (b.next matches Some(n) ==> n < bound)
    &&& forall|j: int| 0 <= j < b.inputs@.len() ==> (#[trigger] b.inputs@[j]).1 < bound
}

/// Wiring an input under one key leaves the others as they were.
pub proof fn lemma_input_at_push(s: Seq<(String, usize)>, x: (String, usize), key: Seq<char>)
    ensures
        input_at(s.push(x), key) == if x.0@ == key {
            Some(x.1)
        } else {
            input_at(s, key)
        },
{
    assert(s.push(x).drop_last() =~= s);
}

pub proof fn lemma_input_below(b: Block, key: Seq<char>, bound: int)
    requires
        handles_below(b, bound),
    ensures
        b.input(key) matches Some(c) ==> c < bound,
{
    lemma_input_at_in(b.inputs@, key);
}

proof fn lemma_input_at_in(s: Seq<(String, usize)>, key: Seq<char>)
    ensures
        input_at(s, key) matches Some(c) ==> exists|j: int| 0 <= j < s.len() && (#[trigger] s[j]).1 == c,
    decreases s.len(),
{
    if s.len() > 0 {
        assert(s.last() == s[s.len() - 1]);
        lemma_input_at_in(s.drop_last(), key);
        if let Some(c) = input_at(s.drop_last(), key) {
            let j = choose|j: int| 0 <= j < s.drop_last().len() && (#[trigger] s.drop_last()[j]).1 == c;
            assert(s[j] == s.drop_last()[j]);
        }
    }
}

/// A stored block is sound: its handles point below `bound` and its literal is well formed.
pub open spec fn node_ok(b: Block, bound: int) -> bool {
    &&& handles_below(b, bound)
    &&& (b.literal matches Some(v) ==> v.wf())
}

/// The blocks of one sprite, stored by handle. Every block refers only to blocks stored
/// before it, so the graph holds no cycle.
#[derive(Debug)]
pub struct BlockGraph {
    nodes: Vec<Block>,
}

impl View for BlockGraph {
    type V = Seq<Block>;

    closed spec fn view(&self) -> Seq<Block> {
        self.nodes@
    }
}

impl BlockGraph {
    pub open spec fn wf(&self) -> bool {
        forall|i: int| 0 <= i < self@.len() ==> node_ok(#[trigger] self@[i], i)
    }

    pub fn new() -> (r: Self)
        ensures
            r@.len() == 0,
            r.wf(),
    {
        BlockGraph { nodes: Vec::new() }
    }

    pub fn len(&self) -> (r: usize)
        ensures
            r == self@.len(),
    {
        self.nodes.len()
    }

    pub fn node(&self, i: usize) -> (r: &Block)
        requires
            i < self@.len(),
        ensures
            *r == self@[i as int],
    {
        &self.nodes[i]
    }

    /// Stores `b` and returns its handle.
    pub fn push(&mut self, b: Block) -> (r: usize)
        ensures
            r == old(self)@.len(),
            final(self)@ == old(self)@.push(b),
            old(self).wf() && node_ok(b, old(self)@.len() as int) ==> final(self).wf(),
    {
        let r = self.nodes.len();
        self.nodes.push(b);
        proof {
            if old(self).wf() && node_ok(b, old(self)@.len() as int) {
                assert forall|i: int| 0 <= i < self@.len() implies node_ok(
                    #[trigger] self@[i],
                    i,
                ) by {
                    if i < old(self)@.len() {
                        assert(self@[i] == old(self)@[i]);
                    }
                }
            }
        }
        r
    }

    /// Marks whether the listener at `i` has started its chain.
    pub fn set_started(&mut self, i: usize, started: bool)
        requires
            i < old(self)@.len(),
        ensures
            final(self)@.len() == old(self)@.len(),
            forall|j: int| 0 <= j < old(self)@.len() && j != i ==> final(self)@[j] == old(self)@[j],
            final(self)@[i as int].started == started,
            final(self)@[i as int].kind == old(self)@[i as int].kind,
            final(self)@[i as int].id == old(self)@[i as int].id,
            final(self)@[i as int].next == old(self)@[i as int].next,
            final(self)@[i as int].inputs == old(self)@[i as int].inputs,
            final(self)@[i as int].field == old(self)@[i as int].field,
            final(self)@[i as int].literal == old(self)@[i as int].literal,
            old(self).wf() ==> final(self).wf(),
    {
        let ghost before = self.nodes@;
        let mut b = self.nodes.remove(i);
        b.started = started;
        self.nodes.insert(i, b);
        proof {
            assert forall|j: int| 0 <= j < before.len() && j != i implies self@[j] == before[j] by {
                if j < i {
                } else {
                }
            }
            if old(self).wf() {
                assert forall|k: int| 0 <= k < self@.len() implies node_ok(
                    #[trigger] self@[k],
                    k,
                ) by {
                    assert(node_ok(before[k], k));
                    if k != i {
                        assert(self@[k] == before[k]);
                    } else {
                        assert(self@[k].inputs@ == before[k].inputs@);
                    }
                }
            }
        }
    }

    /// A picture of the block at `i` and everything wired into it.
    pub fn block_inputs(&self, i: usize) -> (r: BlockInputs)
        requires
            self.wf(),
            i < self@.len(),
        ensures
            r.info.id@ == self@[i as int].id@,
            r.info.name@ == kind_name(self@[i as int].kind),
            r.inputs@.len() == self@[i as int].inputs@.len(),
            forall|j: int|
                0 <= j < r.inputs@.len() ==> (#[trigger] r.inputs@[j]).0@ == self@[i as int].inputs@[j].0@
                    && r.inputs@[j].1.info.id@ == self@[self@[i as int].inputs@[j].1 as int].id@,
            r.stacks@.len() == (if self@[i as int].next is Some {
                1int
            } else {
                0
            }),
            self@[i as int].next matches Some(n) ==> r.stacks@[0].0@ == "next"@
                && r.stacks@[0].1.info.id@ == self@[n as int].id@,
            field_key(self@[i as int].kind) matches Some(k) ==> r.fields@.len() == 1
                && r.fields@[0].0@ == k && r.fields@[0].1@ == self@[i as int].field@,
            field_key(self@[i as int].kind) is None ==> r.fields@.len() == 0,
        decreases i,
    {
        let b = &self.nodes[i];
        assert(node_ok(self@[i as int], i as int));
        let info = b.block_info();
        let mut fields: Vec<(String, String)> = Vec::new();
        match b.kind {
            Kind::WhenBroadcastReceived => fields.push((String::from_str("BROADCAST_OPTION"), b.field.clone())),
            Kind::SetVariable | Kind::ChangeVariable => fields.push((String::from_str("VARIABLE"), b.field.clone())),
            Kind::KeyOptions => fields.push((String::from_str("KEY_OPTION"), b.field.clone())),
            Kind::TouchingObjectMenu => fields.push((String::from_str("TOUCHINGOBJECTMENU"), b.field.clone())),
            _ => {},
        }
        let mut inputs: Vec<(String, BlockInputs)> = Vec::new();
        let mut j: usize = 0;
        while j < b.inputs.len()
            invariant
                self.wf(),
                i < self@.len(),
                *b == self@[i as int],
                handles_below(*b, i as int),
                j <= b.inputs@.len(),
                inputs@.len() == j,
                forall|k: int|
                    0 <= k < j ==> (#[trigger] inputs@[k]).0@ == b.inputs@[k].0@
                        && inputs@[k].1.info.id@ == self@[b.inputs@[k].1 as int].id@,
            decreases b.inputs@.len() - j,
        {
            let c = b.inputs[j].1;
            assert(c < i);
            let sub = self.block_inputs(c);
            inputs.push((b.inputs[j].0.clone(), sub));
            j = j + 1;
        }
        let mut stacks: Vec<(String, BlockInputs)> = Vec::new();
        if let Some(n) = b.next {
            let sub = self.block_inputs(n);
            stacks.push((String::from_str("next"), sub));
        }
        BlockInputs { info, fields, inputs, stacks }
    }
}

} // verus!
