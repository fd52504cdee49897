use vstd::prelude::*;
use crate::color::{Rgb, black, white, yellow};
use crate::error::SignError;
use crate::markup::{DrawIntent, IntentModel, intents_view, parse, parse_markup};
use crate::text::{decimal, decimal_string};

verus! {

/// Smallest speed limit that the limit control offers.
pub const LIMIT_MIN: u32 = 5;

/// Largest speed limit that the limit control offers.
pub const LIMIT_MAX: u32 = 110;

/// The two live parameters of the sign.
#[derive(Clone, Copy, Debug, PartialEq, Eq, Structural)]
pub struct SignState {
    pub limit: u32,
    pub is_temp: bool,
}

impl Default for SignState {
    fn default() -> (r: SignState)
        ensures
            r.limit == 90,
            !r.is_temp,
    {
        SignState { limit: 90, is_temp: false }
    }
}

/// A semantic tag: marks the entity that a live update patches.
#[derive(Clone, Copy, Debug, PartialEq, Eq, Structural)]
pub enum Tag {
    LimitText,
    TempBackground,
}

/// The geometry or text that an entity draws.
#[derive(Clone, Debug, PartialEq, Eq)]
pub enum Shape {
    Path { commands: String },
    Circle { cx: String, cy: String, radius: String },
    Text { content: String, right_aligned: bool },
}

pub enum ShapeModel {
    Path { commands: Seq<char> },
    Circle { cx: Seq<char>, cy: Seq<char>, radius: Seq<char> },
    Text { content: Seq<char>, right_aligned: bool },
}

impl View for Shape {
    type V = ShapeModel;

    open spec fn view(&self) -> ShapeModel {
        match self {
            Shape::Path { commands } => ShapeModel::Path { commands: commands@ },
            Shape::Circle { cx, cy, radius } => ShapeModel::Circle {
                cx: cx@,
                cy: cy@,
                radius: radius@,
            },
            Shape::Text { content, right_aligned } => ShapeModel::Text {
                content: content@,
                right_aligned: *right_aligned,
            },
        }
    }
}

/// One renderable instance.
#[derive(Clone, Debug, PartialEq, Eq)]
pub struct SceneEntity {
    pub shape: Shape,
    pub fill: Rgb,
    pub tag: Option<Tag>,
}

pub struct EntityModel {
    pub shape: ShapeModel,
    pub fill: Rgb,
    pub tag: Option<Tag>,
}

impl View for SceneEntity {
    type V = EntityModel;

    open spec fn view(&self) -> EntityModel {
        EntityModel { shape: self.shape@, fill: self.fill, tag: self.tag }
    }
}

/// The fill that the temporary background shows for a flag value.
pub open spec fn temp_color(is_temp: bool) -> Rgb {
    if is_temp {
        yellow()
    } else {
        white()
    }
}

/// The tag that the entity built from an intent carries.
pub open spec fn intent_tag(x: IntentModel) -> Option<Tag> {
    match x {
        IntentModel::Circle { temp_marker, .. } => if temp_marker {
            Some(Tag::TempBackground)
        } else {
            None
        },
        IntentModel::TextPlaceholder { .. } => Some(Tag::LimitText),
        IntentModel::Path { .. } => None,
    }
}

/// The entity that the builder makes of an intent.
pub open spec fn entity_of(x: IntentModel, st: SignState) -> EntityModel {
    match x {
        IntentModel::Path { commands, fill } => EntityModel {
            shape: ShapeModel::Path { commands },
            fill,
            tag: None,
        },
        IntentModel::Circle { cx, cy, radius, fill, temp_marker } => EntityModel {
            shape: ShapeModel::Circle { cx, cy, radius },
            fill: if temp_marker {
                temp_color(st.is_temp)
            } else {
                fill
            },
            tag: intent_tag(x),
        },
        IntentModel::TextPlaceholder { .. } => EntityModel {
            shape: ShapeModel::Text { content: decimal(st.limit as nat), right_aligned: true },
            fill: black(),
            tag: Some(Tag::LimitText),
        },
    }
}

/// How many intents of `desc` yield an entity tagged `t`.
pub open spec fn count_tag(desc: Seq<IntentModel>, t: Tag) -> nat
    decreases desc.len(),
{
    if desc.len() == 0 {
        0
    } else {
        count_tag(desc.drop_last(), t) + if intent_tag(desc.last()) == Some(t) {
            1nat
        } else {
            0nat
        }
    }
}

/// Why a description cannot be built, if it cannot: each tag must be carried
/// by exactly one entity.
pub open spec fn build_error(desc: Seq<IntentModel>) -> Option<SignError> {
    if count_tag(desc, Tag::LimitText) > 1 || count_tag(desc, Tag::TempBackground) > 1 {
        Some(SignError::DuplicateTaggedEntity)
    } else if count_tag(desc, Tag::LimitText) == 0 || count_tag(desc, Tag::TempBackground) == 0 {
        Some(SignError::MissingTaggedEntity)
    } else {
        None
    }
}

/// The scene that a description and a state build.
pub open spec fn build_model(desc: Seq<IntentModel>, st: SignState) -> Seq<EntityModel> {
    desc.map_values(|x: IntentModel| entity_of(x, st))
}

/// `m` with the text of the entity at `h`, if any, set to the numeral of `v`.
pub open spec fn with_limit(m: Seq<EntityModel>, h: Option<usize>, v: u32) -> Seq<EntityModel> {
    match h {
        Some(k) => m.update(
            k as int,
            EntityModel {
                shape: match m[k as int].shape {
                    ShapeModel::Text { right_aligned, .. } => ShapeModel::Text {
                        content: decimal(v as nat),
                        right_aligned,
                    },
                    other => other,
                },
                ..m[k as int]
            },
        ),
        None => m,
    }
}

/// `m` with the fill of the entity at `h`, if any, set for the flag `is_temp`.
pub open spec fn with_temp_flag(m: Seq<EntityModel>, h: Option<usize>, is_temp: bool) -> Seq<
    EntityModel,
> {
    match h {
        Some(k) => m.update(k as int, EntityModel { fill: temp_color(is_temp), ..m[k as int] }),
        None => m,
    }
}

pub open spec fn handle_ok(m: Seq<EntityModel>, h: Option<usize>, t: Tag) -> bool {
    &&& forall|j: int| 0 <= j < m.len() && m[j].tag == Some(t) ==> h == Some(j as usize)
    &&& h matches Some(k) ==> k < m.len() && m[k as int].tag == Some(t)
}

/// The instantiated scene: entities in paint order, and for each tag the
/// position of the one entity that carries it.
pub struct SceneGraph {
    entities: Vec<SceneEntity>,
    limit_text: Option<usize>,
    temp_background: Option<usize>,
}

impl SceneGraph {
    pub closed spec fn model(&self) -> Seq<EntityModel> {
        self.entities@.map_values(|e: SceneEntity| e@)
    }

    pub closed spec fn limit_handle(&self) -> Option<usize> {
        self.limit_text
    }

    pub closed spec fn temp_handle(&self) -> Option<usize> {
        self.temp_background
    }

    /// Each tag's position names the only entity that carries the tag, and
    /// the limit tag sits on a text.
    pub open spec fn wf(&self) -> bool {
        &&& handle_ok(self.model(), self.limit_handle(), Tag::LimitText)
        &&& handle_ok(self.model(), self.temp_handle(), Tag::TempBackground)
        &&& self.limit_handle() matches Some(k) ==> self.model()[k as int].shape is Text
    }

    /// A scene with no entities, as it stands before the builder has run.
    pub fn new() -> (r: SceneGraph)
        ensures
            r.wf(),
            r.model().len() == 0,
            r.limit_handle() is None,
            r.temp_handle() is None,
    {
        let r = SceneGraph { entities: Vec::new(), limit_text: None, temp_background: None };
        assert(r.model().len() == 0);
        r
    }

    /// Builds the scene of a description: one entity per intent, in order.
    /// A path keeps its fill; a circle keeps its fill unless it is the
    /// temporary marker, which takes the fill of `st.is_temp`; the text
    /// placeholder shows `st.limit`. Fails unless exactly one entity carries
    /// each tag.
    pub fn build(desc: &Vec<DrawIntent>, st: SignState) -> (r: Result<SceneGraph, SignError>)
        ensures
            match r {
                Ok(g) => {
                    &&& build_error(intents_view(desc@)) is None
                    &&& g.wf()
                    &&& g.model() == build_model(intents_view(desc@), st)
                },
                Err(e) => build_error(intents_view(desc@)) == Some(e),
            },
    {
        let ghost d = intents_view(desc@);
        let mut entities: Vec<SceneEntity> = Vec::new();
        let mut limit_text: Option<usize> = None;
        let mut temp_background: Option<usize> = None;
        let mut i: usize = 0;
        while i < desc.len()
            invariant
                d == intents_view(desc@),
                i <= desc.len(),
                entities@.len() == i,
                forall|j: int| 0 <= j < i ==> (#[trigger] entities@[j])@ == entity_of(d[j], st),
                limit_text is None <==> count_tag(d.take(i as int), Tag::LimitText) == 0,
                limit_text is Some ==> count_tag(d.take(i as int), Tag::LimitText) == 1,
                temp_background is None <==> count_tag(d.take(i as int), Tag::TempBackground) == 0,
                temp_background is Some ==> count_tag(d.take(i as int), Tag::TempBackground) == 1,
                handle_ok(entities@.map_values(|e: SceneEntity| e@), limit_text, Tag::LimitText),
                handle_ok(
                    entities@.map_values(|e: SceneEntity| e@),
                    temp_background,
                    Tag::TempBackground,
                ),
            decreases desc.len() - i,
        {
            let e = entity_for(&desc[i], st);
            proof {
                lemma_entity_tag(d[i as int], st);
                assert(d.take(i + 1).drop_last() =~= d.take(i as int));
                assert(d.take(i + 1).last() == d[i as int]);
            }
            match e.tag {
                Some(Tag::LimitText) => {
                    if limit_text.is_some() {
                        proof {
                            lemma_count_prefix(d, i + 1, Tag::LimitText);
                        }
                        return Err(SignError::DuplicateTaggedEntity);
                    }
                    limit_text = Some(i);
                },
                Some(Tag::TempBackground) => {
                    if temp_background.is_some() {
                        proof {
                            lemma_count_prefix(d, i + 1, Tag::TempBackground);
                        }
                        return Err(SignError::DuplicateTaggedEntity);
                    }
                    temp_background = Some(i);
                },
                None => {},
            }
            let ghost before = entities@;
            entities.push(e);
            proof {
                assert(entities@.map_values(|e: SceneEntity| e@) =~= before.map_values(
                    |e: SceneEntity| e@,
                ).push(e@));
            }
            i = i + 1;
        }
        proof {
            assert(d.take(i as int) =~= d);
        }
        if limit_text.is_none() || temp_background.is_none() {
            return Err(SignError::MissingTaggedEntity);
        }
        let g = SceneGraph { entities, limit_text, temp_background };
        assert(g.model() =~= build_model(d, st));
        Ok(g)
    }

    /// Shows `new_limit` on the limit text, in decimal; nothing else changes.
    /// Without a limit text the scene is left as it is.
    pub fn apply_limit(&mut self, new_limit: u32) -> (r: Result<(), SignError>)
        requires
            old(self).wf(),
        ensures
            final(self).wf(),
            final(self).limit_handle() == old(self).limit_handle(),
            final(self).temp_handle() == old(self).temp_handle(),
            final(self).model() == with_limit(old(self).model(), old(self).limit_handle(), new_limit),
            r == (match old(self).limit_handle() {
                Some(_) => Ok(()),
                None => Err(SignError::MissingTaggedEntity),
            }),
    {
        match self.limit_text {
            None => Err(SignError::MissingTaggedEntity),
            Some(k) => {
                let right_aligned = match &self.entities[k].shape {
                    Shape::Text { right_aligned, .. } => *right_aligned,
                    _ => true,
                };
                let fill = self.entities[k].fill;
                let tag = self.entities[k].tag;
                let content = decimal_string(new_limit);
                self.entities.set(k, SceneEntity { shape: Shape::Text { content, right_aligned }, fill, tag });
                proof {
                    assert(self.model() =~= with_limit(old(self).model(), Some(k), new_limit));
                }
                Ok(())
            },
        }
    }

    /// Gives the temporary background the fill of `is_temp`: yellow when
    /// set, white when not; nothing else changes. Without a temporary
    /// background the scene is left as it is.
    pub fn apply_temp_flag(&mut self, is_temp: bool) -> (r: Result<(), SignError>)
        requires
            old(self).wf(),
        ensures
            final(self).wf(),
            final(self).limit_handle() == old(self).limit_handle(),
            final(self).temp_handle() == old(self).temp_handle(),
            final(self).model() == with_temp_flag(old(self).model(), old(self).temp_handle(), is_temp),
            r == (match old(self).temp_handle() {
                Some(_) => Ok(()),
                None => Err(SignError::MissingTaggedEntity),
            }),
    {
        match self.temp_background {
            None => Err(SignError::MissingTaggedEntity),
            Some(k) => {
                let shape = copy_shape(&self.entities[k].shape);
                let tag = self.entities[k].tag;
                let fill = temp_fill(is_temp);
                self.entities.set(k, SceneEntity { shape, fill, tag });
                proof {
                    assert(self.model() =~= with_temp_flag(old(self).model(), Some(k), is_temp));
                }
                Ok(())
            },
        }
    }

    /// The entities, in paint order.
    pub fn entities(&self) -> (r: &Vec<SceneEntity>)
        ensures
            r@.map_values(|e: SceneEntity| e@) == self.model(),
    {
        &self.entities
    }

    /// What the limit text shows, if the scene has one.
    pub fn limit_text(&self) -> (r: Option<String>)
        requires
            self.wf(),
        ensures
            match self.limit_handle() {
                Some(k) => match self.model()[k as int].shape {
                    ShapeModel::Text { content, .. } => r matches Some(t) && t@ == content,
                    _ => false,
                },
                None => r is None,
            },
    {
        match self.limit_text {
            None => None,
            Some(k) => match &self.entities[k].shape {
                Shape::Text { content, .. } => Some(content.clone()),
                _ => None,
            },
        }
    }

    /// The fill of the temporary background, if the scene has one.
    pub fn temp_background_fill(&self) -> (r: Option<Rgb>)
        requires
            self.wf(),
        ensures
            match self.temp_handle() {
                Some(k) => r == Some(self.model()[k as int].fill),
                None => r is None,
            },
    {
        match self.temp_background {
            None => None,
            Some(k) => Some(self.entities[k].fill),
        }
    }
}

fn temp_fill(is_temp: bool) -> (r: Rgb)
    ensures
        r == temp_color(is_temp),
{
    if is_temp {
        Rgb { r: 255, g: 255, b: 0 }
    } else {
        Rgb { r: 255, g: 255, b: 255 }
    }
}

fn copy_shape(s: &Shape) -> (r: Shape)
    ensures
        r@ == s@,
{
    match s {
        Shape::Path { commands } => Shape::Path { commands: commands.clone() },
        Shape::Circle { cx, cy, radius } => Shape::Circle {
            cx: cx.clone(),
            cy: cy.clone(),
            radius: radius.clone(),
        },
        Shape::Text { content, right_aligned } => Shape::Text {
            content: content.clone(),
            right_aligned: *right_aligned,
        },
    }
}

fn entity_for(x: &DrawIntent, st: SignState) -> (e: SceneEntity)
    ensures
        e@ == entity_of(x@, st),
{
    match x {
        DrawIntent::Path { commands, fill } => SceneEntity {
            shape: Shape::Path { commands: commands.clone() },
            fill: *fill,
            tag: None,
        },
        DrawIntent::Circle { cx, cy, radius, fill, temp_marker } => SceneEntity {
            shape: Shape::Circle { cx: cx.clone(), cy: cy.clone(), radius: radius.clone() },
            fill: if *temp_marker {
                temp_fill(st.is_temp)
            } else {
                *fill
            },
            tag: if *temp_marker {
                Some(Tag::TempBackground)
            } else {
                None
            },
        },
        DrawIntent::TextPlaceholder { .. } => SceneEntity {
            shape: Shape::Text { content: decimal_string(st.limit), right_aligned: true },
            fill: Rgb { r: 0, g: 0, b: 0 },
            tag: Some(Tag::LimitText),
        },
    }
}

proof fn lemma_entity_tag(x: IntentModel, st: SignState)
    ensures
        entity_of(x, st).tag == intent_tag(x),
        entity_of(x, st).tag == Some(Tag::LimitText) ==> entity_of(x, st).shape is Text,
{
}

proof fn lemma_count_prefix(s: Seq<IntentModel>, i: int, t: Tag)
    requires
        0 <= i <= s.len(),
    ensures
        count_tag(s.take(i), t) <= count_tag(s, t),
    decreases s.len() - i,
{
    if i == s.len() {
        assert(s.take(i) =~= s);
    } else {
        lemma_count_prefix(s, i + 1, t);
        assert(s.take(i + 1).drop_last() =~= s.take(i));
    }
}

/// Reads a template and builds its scene for the state `st`.
pub fn compile(template: &str, st: SignState) -> (r: Result<SceneGraph, SignError>)
    ensures
        match parse_markup(template@) {
            Err(e) => r == Err::<SceneGraph, SignError>(e),
            Ok(d) => match build_error(d) {
                Some(e) => r matches Err(f) && f == e,
                None => r matches Ok(g) && g.wf() && g.model() == build_model(d, st),
            },
        },
{
    let desc = parse(template)?;
    SceneGraph::build(&desc, st)
}

/// After a limit update the limit text reads exactly the decimal numeral of
/// the new limit: no sign, no separators, and no leading zero.
pub proof fn law_limit_text_is_numeral(g: SceneGraph, v: u32)
    requires
        g.wf(),
        g.limit_handle() is Some,
    ensures
        with_limit(g.model(), g.limit_handle(), v)[g.limit_handle()->0 as int].shape matches ShapeModel::Text { content, .. } && content == decimal(v as nat),
        v > 0 ==> decimal(v as nat)[0] != '0',
{
    if v > 0 {
        crate::text::lemma_decimal_no_leading_zero(v as nat);
    }
}

/// Setting the temporary flag and then clearing it gives back a scene that
/// was built with the flag clear.
pub proof fn law_temp_flag_round_trip(g: SceneGraph, desc: Seq<IntentModel>, st: SignState)
    requires
        g.wf(),
        g.model() == build_model(desc, st),
        !st.is_temp,
    ensures
        with_temp_flag(with_temp_flag(g.model(), g.temp_handle(), true), g.temp_handle(), false)
            == g.model(),
{
    if let Some(k) = g.temp_handle() {
        let m = g.model();
        lemma_entity_tag(desc[k as int], st);
        assert(m[k as int] == entity_of(desc[k as int], st));
        assert(with_temp_flag(with_temp_flag(m, Some(k), true), Some(k), false) =~= m);
    }
}

/// Applying the same limit twice leaves the scene as applying it once.
pub proof fn law_limit_idempotent(g: SceneGraph, v: u32)
    requires
        g.wf(),
    ensures
        with_limit(with_limit(g.model(), g.limit_handle(), v), g.limit_handle(), v) == with_limit(
            g.model(),
            g.limit_handle(),
            v,
        ),
{
    if let Some(k) = g.limit_handle() {
        let once = with_limit(g.model(), Some(k), v);
        assert(with_limit(once, Some(k), v) =~= once);
    }
}

} // verus!
