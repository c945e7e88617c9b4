//! Commands of the browser's protocol, and plans made of them.
use vstd::prelude::*;
use serde_json::Value;

use crate::command::pair_texts;
use crate::matcher::texts;
use crate::protocol::{opt_text, HeaderValueView, Headers};

verus! {

/// A brand and its version.
#[derive(Debug)]
pub struct UserAgentBrandVersion {
    /// The brand.
    pub brand: String,
    /// The version.
    pub version: String,
}

/// The texts of a list of brands.
pub open spec fn brand_texts(brands: Seq<UserAgentBrandVersion>) -> Seq<(Seq<char>, Seq<char>)> {
    brands.map_values(|b: UserAgentBrandVersion| (b.brand@, b.version@))
}

/// What a browser says of itself beside its user agent.
#[derive(Debug)]
pub struct UserAgentMetadata {
    /// The brands.
    pub brands: Vec<UserAgentBrandVersion>,
    /// The brands with their full versions.
    pub full_version_list: Vec<UserAgentBrandVersion>,
    /// The platform.
    pub platform: String,
    /// The version of the platform.
    pub platform_version: String,
    /// The architecture.
    pub architecture: String,
    /// The model of the device.
    pub model: String,
    /// The width of a word.
    pub bitness: String,
    /// Is it a mobile device?
    pub mobile: bool,
    /// Is a 32-bit program run by a 64-bit Windows? Said of Windows only.
    pub wow64: Option<bool>,
}

/// The view of [`UserAgentMetadata`].
pub struct UserAgentMetadataView {
    pub brands: Seq<(Seq<char>, Seq<char>)>,
    pub full_version_list: Seq<(Seq<char>, Seq<char>)>,
    pub platform: Seq<char>,
    pub platform_version: Seq<char>,
    pub architecture: Seq<char>,
    pub model: Seq<char>,
    pub bitness: Seq<char>,
    pub mobile: bool,
    pub wow64: Option<bool>,
}

impl View for UserAgentMetadata {
    type V = UserAgentMetadataView;

    open spec fn view(&self) -> UserAgentMetadataView {
        UserAgentMetadataView {
            brands: brand_texts(self.brands@),
            full_version_list: brand_texts(self.full_version_list@),
            platform: self.platform@,
            platform_version: self.platform_version@,
            architecture: self.architecture@,
            model: self.model@,
            bitness: self.bitness@,
            mobile: self.mobile,
            wow64: self.wow64,
        }
    }
}

/// A second copy of a list of brands.
pub fn copy_brands(brands: &Vec<UserAgentBrandVersion>) -> (copy: Vec<UserAgentBrandVersion>)
    ensures
        brand_texts(copy@) == brand_texts(brands@),
{
    let mut copy: Vec<UserAgentBrandVersion> = Vec::new();
    let mut i: usize = 0;
    while i < brands.len()
        invariant
            i <= brands.len(),
            copy.len() == i,
            forall|j: int|
                0 <= j < i ==> (#[trigger] copy@[j]).brand@ == brands@[j].brand@
                    && copy@[j].version@ == brands@[j].version@,
        decreases brands.len() - i,
    {
        copy.push(
            UserAgentBrandVersion {
                brand: brands[i].brand.clone(),
                version: brands[i].version.clone(),
            },
        );
        i = i + 1;
    }
    proof {
        assert(brand_texts(copy@) =~= brand_texts(brands@));
    }
    copy
}

impl Clone for UserAgentMetadata {
    fn clone(&self) -> (copy: Self)
        ensures
            copy@ == self@,
    {
        UserAgentMetadata {
            brands: copy_brands(&self.brands),
            full_version_list: copy_brands(&self.full_version_list),
            platform: self.platform.clone(),
            platform_version: self.platform_version.clone(),
            architecture: self.architecture.clone(),
            model: self.model.clone(),
            bitness: self.bitness.clone(),
            mobile: self.mobile,
            wow64: self.wow64,
        }
    }
}

/// A cookie that is to be set.
#[derive(Debug)]
pub struct CookieParam {
    /// The name.
    pub name: String,
    /// The value.
    pub value: String,
    /// The URL that it is for.
    pub url: Option<String>,
    /// The domain.
    pub domain: Option<String>,
    /// The path.
    pub path: Option<String>,
    /// The other attributes, as an object in JSON.
    pub rest: Option<Value>,
}

/// The view of [`CookieParam`].
pub struct CookieParamView {
    pub name: Seq<char>,
    pub value: Seq<char>,
    pub url: Option<Seq<char>>,
    pub domain: Option<Seq<char>>,
    pub path: Option<Seq<char>>,
    pub rest: Option<Value>,
}

impl View for CookieParam {
    type V = CookieParamView;

    open spec fn view(&self) -> CookieParamView {
        CookieParamView {
            name: self.name@,
            value: self.value@,
            url: opt_text(self.url),
            domain: opt_text(self.domain),
            path: opt_text(self.path),
            rest: self.rest,
        }
    }
}

/// The views of a list of cookies.
pub open spec fn cookie_views(cookies: Seq<CookieParam>) -> Seq<CookieParamView> {
    cookies.map_values(|c: CookieParam| c@)
}

/// An argument of a function.
#[derive(Debug)]
pub enum Argument {
    Text(String),
    /// A value that is carried through.
    Json(Value),
}

/// The view of [`Argument`].
pub enum ArgumentView {
    Text(Seq<char>),
    Json(Value),
}

impl View for Argument {
    type V = ArgumentView;

    open spec fn view(&self) -> ArgumentView {
        match *self {
            Argument::Text(text) => ArgumentView::Text(text@),
            Argument::Json(value) => ArgumentView::Json(value),
        }
    }
}

/// The views of arguments.
pub open spec fn argument_views(arguments: Seq<Argument>) -> Seq<ArgumentView> {
    arguments.map_values(|a: Argument| a@)
}

/// A colour. How much of it covers what lies behind is a floating-point number, which is
/// held by its bits.
#[derive(Debug, Clone, Copy, PartialEq, Eq, Structural)]
pub struct Rgba {
    pub r: i64,
    pub g: i64,
    pub b: i64,
    pub a: Option<u64>,
}

impl Rgba {
    /// A colour of which it is not said how much it covers.
    pub fn new(r: i64, g: i64, b: i64) -> (color: Rgba)
        ensures
            color == (Rgba { r, g, b, a: None }),
    {
        Rgba { r, g, b, a: None }
    }
}

/// A parameter of a command.
#[derive(Debug)]
pub enum Param {
    Bool(bool),
    Int(i64),
    /// A floating-point number, by its bits.
    Number(u64),
    Text(String),
    Texts(Vec<String>),
    /// Objects of a name and a value.
    Named(Vec<(String, String)>),
    /// Objects of a URL pattern and whether it blocks.
    Patterns(Vec<(String, bool)>),
    Headers(Headers),
    Metadata(UserAgentMetadata),
    Cookies(Vec<CookieParam>),
    /// A value that is carried through.
    Json(Value),
    /// The arguments of a function, as objects that hold their values.
    Arguments(Vec<Argument>),
    Color(Rgba),
}

/// The view of [`Param`].
pub enum ParamView {
    Bool(bool),
    Int(int),
    Number(u64),
    Text(Seq<char>),
    Texts(Seq<Seq<char>>),
    Named(Seq<(Seq<char>, Seq<char>)>),
    Patterns(Seq<(Seq<char>, bool)>),
    Headers(Map<Seq<char>, HeaderValueView>),
    Metadata(UserAgentMetadataView),
    Cookies(Seq<CookieParamView>),
    Json(Value),
    Arguments(Seq<ArgumentView>),
    Color(Rgba),
}

/// The texts of a list of patterns.
pub open spec fn pattern_texts(patterns: Seq<(String, bool)>) -> Seq<(Seq<char>, bool)> {
    patterns.map_values(|p: (String, bool)| (p.0@, p.1))
}

impl View for Param {
    type V = ParamView;

    open spec fn view(&self) -> ParamView {
        match *self {
            Param::Bool(yes) => ParamView::Bool(yes),
            Param::Int(number) => ParamView::Int(number as int),
            Param::Number(bits) => ParamView::Number(bits),
            Param::Text(text) => ParamView::Text(text@),
            Param::Texts(list) => ParamView::Texts(texts(list@)),
            Param::Named(pairs) => ParamView::Named(pair_texts(pairs@)),
            Param::Patterns(patterns) => ParamView::Patterns(pattern_texts(patterns@)),
            Param::Headers(headers) => ParamView::Headers(headers@),
            Param::Metadata(metadata) => ParamView::Metadata(metadata@),
            Param::Cookies(cookies) => ParamView::Cookies(cookie_views(cookies@)),
            Param::Json(value) => ParamView::Json(value),
            Param::Arguments(arguments) => ParamView::Arguments(argument_views(arguments@)),
            Param::Color(color) => ParamView::Color(color),
        }
    }
}

/// A command: a method and its parameters by name.
#[derive(Debug)]
pub struct Call {
    /// The method.
    pub method: String,
    /// The parameters.
    pub params: Vec<(String, Param)>,
}

/// The view of [`Call`].
pub struct CallView {
    pub method: Seq<char>,
    pub params: Seq<(Seq<char>, ParamView)>,
}

/// The views of a list of parameters.
pub open spec fn param_views(params: Seq<(String, Param)>) -> Seq<(Seq<char>, ParamView)> {
    params.map_values(|p: (String, Param)| (p.0@, p.1@))
}

impl View for Call {
    type V = CallView;

    open spec fn view(&self) -> CallView {
        CallView { method: self.method@, params: param_views(self.params@) }
    }
}

/// A command without parameters.
pub open spec fn call(method: Seq<char>) -> CallView {
    CallView { method, params: Seq::empty() }
}

impl CallView {
    /// The command with one more parameter.
    pub open spec fn with(self, name: Seq<char>, param: ParamView) -> CallView {
        CallView { params: self.params.push((name, param)), ..self }
    }

    /// The command with one more parameter, if that is given.
    pub open spec fn with_text(self, name: Seq<char>, text: Option<Seq<char>>) -> CallView {
        match text {
            Some(t) => self.with(name, ParamView::Text(t)),
            None => self,
        }
    }

    /// The command with one more parameter, if that is given.
    pub open spec fn with_bool(self, name: Seq<char>, yes: Option<bool>) -> CallView {
        match yes {
            Some(y) => self.with(name, ParamView::Bool(y)),
            None => self,
        }
    }

    /// The command with one more parameter, if that is given.
    pub open spec fn with_int(self, name: Seq<char>, number: Option<i64>) -> CallView {
        match number {
            Some(n) => self.with(name, ParamView::Int(n as int)),
            None => self,
        }
    }
}

impl Call {
    /// A command without parameters.
    pub fn new(method: &str) -> (c: Call)
        ensures
            c@ == call(method@),
    {
        let c = Call { method: method.to_owned(), params: Vec::new() };
        proof {
            assert(c@.params =~= Seq::empty());
        }
        c
    }

    /// The command with one more parameter.
    pub fn with(self, name: &str, param: Param) -> (c: Call)
        ensures
            c@ == self@.with(name@, param@),
    {
        let mut c = self;
        c.params.push((name.to_owned(), param));
        proof {
            assert(c@.params =~= self@.params.push((name@, param@)));
        }
        c
    }

    /// The command with one more parameter, if that is given.
    pub fn with_text(self, name: &str, text: Option<String>) -> (c: Call)
        ensures
            c@ == self@.with_text(name@, opt_text(text)),
    {
        match text {
            Some(t) => self.with(name, Param::Text(t)),
            None => self,
        }
    }

    /// The command with one more parameter, if that is given.
    pub fn with_bool(self, name: &str, yes: Option<bool>) -> (c: Call)
        ensures
            c@ == self@.with_bool(name@, yes),
    {
        match yes {
            Some(y) => self.with(name, Param::Bool(y)),
            None => self,
        }
    }

    /// The command with one more parameter, if that is given.
    pub fn with_int(self, name: &str, number: Option<i64>) -> (c: Call)
        ensures
            c@ == self@.with_int(name@, number),
    {
        match number {
            Some(n) => self.with(name, Param::Int(n)),
            None => self,
        }
    }
}

/// A step of an operation.
#[derive(Debug)]
pub enum Step {
    /// Send the command, and do not wait for its response. Whether it could be
    /// sent does not matter.
    Send(Call),
    /// Send the command and wait for its response. An error ends the operation.
    Execute(Call),
}

/// The view of [`Step`].
pub enum StepView {
    Send(CallView),
    Execute(CallView),
}

impl View for Step {
    type V = StepView;

    open spec fn view(&self) -> StepView {
        match *self {
            Step::Send(c) => StepView::Send(c@),
            Step::Execute(c) => StepView::Execute(c@),
        }
    }
}

/// The views of a list of steps.
pub open spec fn step_views(steps: Seq<Step>) -> Seq<StepView> {
    steps.map_values(|s: Step| s@)
}

/// No step.
pub fn no_steps() -> (steps: Vec<Step>)
    ensures
        step_views(steps@) == Seq::<StepView>::empty(),
{
    let steps: Vec<Step> = Vec::new();
    proof {
        assert(step_views(steps@) =~= Seq::empty());
    }
    steps
}

/// One step more.
pub fn and_then(steps: Vec<Step>, step: Step) -> (all: Vec<Step>)
    ensures
        step_views(all@) == step_views(steps@).push(step@),
{
    let mut all = steps;
    all.push(step);
    proof {
        assert(step_views(all@) =~= step_views(steps@).push(step@));
    }
    all
}

/// A page of the browser.
#[derive(Debug)]
pub struct Page {
    /// The target that the page belongs to.
    pub target_id: String,
    /// The session that is attached to the target.
    pub session_id: String,
    /// The target that opened the page.
    pub opener_id: Option<String>,
}

impl Page {
    /// The target that the page belongs to.
    pub fn target_id(&self) -> (id: &String)
        ensures
            *id == self.target_id,
    {
        &self.target_id
    }

    /// The session that is attached to the target.
    pub fn session_id(&self) -> (id: &String)
        ensures
            *id == self.session_id,
    {
        &self.session_id
    }

    /// The target that opened the page.
    pub fn opener_id(&self) -> (id: &Option<String>)
        ensures
            *id == self.opener_id,
    {
        &self.opener_id
    }
}

} // verus!
