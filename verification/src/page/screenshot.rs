//! What a page is shown as: screenshots and media types.
use vstd::prelude::*;
use serde_json::Value;

verus! {

/// The type of medium that a page is shown on.
#[derive(Debug, Clone, Copy, PartialEq, Eq, Structural)]
pub enum MediaTypeParams {
    /// What the page and its print have by themselves.
    Null,
    /// A screen.
    Screen,
    /// Print.
    Print,
}

impl MediaTypeParams {
    /// The name of the medium.
    pub open spec fn name(self) -> Seq<char> {
        match self {
            MediaTypeParams::Null => "null"@,
            MediaTypeParams::Screen => "screen"@,
            MediaTypeParams::Print => "print"@,
        }
    }

    /// The name of the medium.
    pub fn into_text(self) -> (text: String)
        ensures
            text@ == self.name(),
    {
        match self {
            MediaTypeParams::Null => "null".to_owned(),
            MediaTypeParams::Screen => "screen".to_owned(),
            MediaTypeParams::Print => "print".to_owned(),
        }
    }
}

impl Default for MediaTypeParams {
    fn default() -> (media: Self)
        ensures
            media == MediaTypeParams::Null,
    {
        MediaTypeParams::Null
    }
}

/// The format of a screenshot.
#[derive(Debug, Clone, Copy, PartialEq, Eq, Structural)]
pub enum CaptureScreenshotFormat {
    Jpeg,
    Png,
    Webp,
}

/// What the browser is told of a screenshot.
#[derive(Debug)]
pub struct CaptureScreenshotParams {
    /// The format, which is PNG if none is given.
    pub format: Option<CaptureScreenshotFormat>,
    /// The quality from 0 to 100, of JPEG only.
    pub quality: Option<i64>,
    /// The region, as an object in JSON.
    pub clip: Option<Value>,
    /// Is the surface taken and not the view?
    pub from_surface: Option<bool>,
    /// Is more taken than the viewport?
    pub capture_beyond_viewport: Option<bool>,
}

impl Default for CaptureScreenshotParams {
    fn default() -> (params: Self)
        ensures
            params == (CaptureScreenshotParams {
                format: None,
                quality: None,
                clip: None,
                from_surface: None,
                capture_beyond_viewport: None,
            }),
    {
        CaptureScreenshotParams {
            format: None,
            quality: None,
            clip: None,
            from_surface: None,
            capture_beyond_viewport: None,
        }
    }
}

/// A screenshot of a page.
#[derive(Debug)]
pub struct ScreenshotParams {
    /// What the browser is told.
    pub cdp_params: CaptureScreenshotParams,
    /// Is the whole page taken?
    pub full_page: Option<bool>,
    /// Is the background left out? Of PNG only.
    pub omit_background: Option<bool>,
}

impl Default for ScreenshotParams {
    fn default() -> (params: Self)
        ensures
            params.cdp_params == (CaptureScreenshotParams {
                format: None,
                quality: None,
                clip: None,
                from_surface: None,
                capture_beyond_viewport: None,
            }),
            params.full_page is None,
            params.omit_background is None,
    {
        ScreenshotParams {
            cdp_params: CaptureScreenshotParams::default(),
            full_page: None,
            omit_background: None,
        }
    }
}

/// Is the whole page taken?
pub open spec fn takes_full_page(params: ScreenshotParams) -> bool {
    params.full_page == Some(true)
}

/// Is the background left out? It is where that is asked for and the format is PNG.
pub open spec fn leaves_background_out(params: ScreenshotParams) -> bool {
    params.omit_background == Some(true) && (params.cdp_params.format is None
        || params.cdp_params.format == Some(CaptureScreenshotFormat::Png))
}

/// The screenshot in a format.
pub open spec fn with_format(params: ScreenshotParams, format: CaptureScreenshotFormat) -> ScreenshotParams {
    ScreenshotParams {
        cdp_params: CaptureScreenshotParams { format: Some(format), ..params.cdp_params },
        ..params
    }
}

/// The screenshot of a quality.
pub open spec fn with_quality(params: ScreenshotParams, quality: i64) -> ScreenshotParams {
    ScreenshotParams {
        cdp_params: CaptureScreenshotParams { quality: Some(quality), ..params.cdp_params },
        ..params
    }
}

/// The screenshot of a region.
pub open spec fn with_clip(params: ScreenshotParams, clip: Value) -> ScreenshotParams {
    ScreenshotParams {
        cdp_params: CaptureScreenshotParams { clip: Some(clip), ..params.cdp_params },
        ..params
    }
}

/// The screenshot of the surface, or of the view.
pub open spec fn with_from_surface(params: ScreenshotParams, from_surface: bool) -> ScreenshotParams {
    ScreenshotParams {
        cdp_params: CaptureScreenshotParams {
            from_surface: Some(from_surface),
            ..params.cdp_params
        },
        ..params
    }
}

/// The screenshot of more than the viewport, or not.
pub open spec fn with_capture_beyond_viewport(
    params: ScreenshotParams,
    capture_beyond_viewport: bool,
) -> ScreenshotParams {
    ScreenshotParams {
        cdp_params: CaptureScreenshotParams {
            capture_beyond_viewport: Some(capture_beyond_viewport),
            ..params.cdp_params
        },
        ..params
    }
}

/// The screenshot of the whole page, or not.
pub open spec fn with_full_page(params: ScreenshotParams, full_page: bool) -> ScreenshotParams {
    ScreenshotParams { full_page: Some(full_page), ..params }
}

/// The screenshot without its background, or with it.
pub open spec fn with_omit_background(params: ScreenshotParams, omit_background: bool) -> ScreenshotParams {
    ScreenshotParams { omit_background: Some(omit_background), ..params }
}

impl ScreenshotParams {
    /// A builder with nothing set.
    pub fn builder() -> (builder: ScreenshotParamsBuilder)
        ensures
            builder.params() == (ScreenshotParams {
                cdp_params: (CaptureScreenshotParams {
                    format: None,
                    quality: None,
                    clip: None,
                    from_surface: None,
                    capture_beyond_viewport: None,
                }),
                full_page: None,
                omit_background: None,
            }),
    {
        ScreenshotParamsBuilder { params: ScreenshotParams::default() }
    }

    /// Is the whole page taken?
    pub fn full_page(&self) -> (yes: bool)
        ensures
            yes == takes_full_page(*self),
    {
        match self.full_page {
            Some(yes) => yes,
            None => false,
        }
    }

    /// Is the background left out? It is where that is asked for and the format is
    /// PNG.
    pub fn omit_background(&self) -> (yes: bool)
        ensures
            yes == leaves_background_out(*self),
    {
        let asked = match self.omit_background {
            Some(yes) => yes,
            None => false,
        };
        let png = match self.cdp_params.format {
            Some(format) => format == CaptureScreenshotFormat::Png,
            None => true,
        };
        asked && png
    }
}

impl vstd::std_specs::convert::FromSpecImpl<CaptureScreenshotParams> for ScreenshotParams {
    open spec fn obeys_from_spec() -> bool {
        true
    }

    open spec fn from_spec(cdp_params: CaptureScreenshotParams) -> ScreenshotParams {
        ScreenshotParams { cdp_params, full_page: None, omit_background: None }
    }
}

impl From<CaptureScreenshotParams> for ScreenshotParams {
    fn from(cdp_params: CaptureScreenshotParams) -> ScreenshotParams {
        ScreenshotParams { cdp_params, full_page: None, omit_background: None }
    }
}

/// Builds [`ScreenshotParams`].
#[derive(Debug)]
pub struct ScreenshotParamsBuilder {
    params: ScreenshotParams,
}

impl ScreenshotParamsBuilder {
    /// What is set so far.
    pub closed spec fn params(self) -> ScreenshotParams {
        self.params
    }

    /// The format.
    pub fn format(self, format: CaptureScreenshotFormat) -> (builder: Self)
        ensures
            builder.params() == with_format(self.params(), format),
    {
        let mut builder = self;
        builder.params.cdp_params.format = Some(format);
        builder
    }

    /// The quality from 0 to 100, of JPEG only.
    pub fn quality(self, quality: i64) -> (builder: Self)
        ensures
            builder.params() == with_quality(self.params(), quality),
    {
        let mut builder = self;
        builder.params.cdp_params.quality = Some(quality);
        builder
    }

    /// The region, as an object in JSON.
    pub fn clip(self, clip: Value) -> (builder: Self)
        ensures
            builder.params() == with_clip(self.params(), clip),
    {
        let mut builder = self;
        builder.params.cdp_params.clip = Some(clip);
        builder
    }

    /// Is the surface taken and not the view?
    pub fn from_surface(self, from_surface: bool) -> (builder: Self)
        ensures
            builder.params() == with_from_surface(self.params(), from_surface),
    {
        let mut builder = self;
        builder.params.cdp_params.from_surface = Some(from_surface);
        builder
    }

    /// Is more taken than the viewport?
    pub fn capture_beyond_viewport(self, capture_beyond_viewport: bool) -> (builder: Self)
        ensures
            builder.params() == with_capture_beyond_viewport(self.params(), capture_beyond_viewport),
    {
        let mut builder = self;
        builder.params.cdp_params.capture_beyond_viewport = Some(capture_beyond_viewport);
        builder
    }

    /// Is the whole page taken?
    pub fn full_page(self, full_page: bool) -> (builder: Self)
        ensures
            builder.params() == with_full_page(self.params(), full_page),
    {
        let mut builder = self;
        builder.params.full_page = Some(full_page);
        builder
    }

    /// Is the background left out? Of PNG only.
    pub fn omit_background(self, omit_background: bool) -> (builder: Self)
        ensures
            builder.params() == with_omit_background(self.params(), omit_background),
    {
        let mut builder = self;
        builder.params.omit_background = Some(omit_background);
        builder
    }

    /// What has been set.
    pub fn build(self) -> (params: ScreenshotParams)
        ensures
            params == self.params(),
    {
        self.params
    }
}

// ---------------------------------------------------------------------------
// What holds of screenshots

/// The background is left out only where that is asked for, and never of a format other
/// than PNG, which is the format where none is given. The whole page is taken exactly
/// where that is asked for.
pub proof fn what_is_left_out_of_a_screenshot(params: ScreenshotParams)
    ensures
        params.omit_background is None || params.omit_background == Some(false)
            ==> !leaves_background_out(params),
        params.cdp_params.format == Some(CaptureScreenshotFormat::Jpeg) || params.cdp_params.format
            == Some(CaptureScreenshotFormat::Webp) ==> !leaves_background_out(params),
        params.omit_background == Some(true) && params.cdp_params.format == Some(
            CaptureScreenshotFormat::Png,
        ) ==> leaves_background_out(params),
        params.omit_background == Some(true) && params.cdp_params.format is None
            ==> leaves_background_out(params),
        takes_full_page(params) <==> (params.full_page matches Some(yes) && yes),
{
}

/// What is set of a screenshot is set as it was given, and leaves all else as it was.
pub proof fn what_is_set_of_a_screenshot_stays(
    params: ScreenshotParams,
    format: CaptureScreenshotFormat,
    quality: i64,
    clip: Value,
    yes: bool,
)
    ensures
        ({
            let f = with_format(params, format);
            let q = with_quality(params, quality);
            let c = with_clip(params, clip);
            let s = with_from_surface(params, yes);
            let b = with_capture_beyond_viewport(params, yes);
            let w = with_full_page(params, yes);
            let o = with_omit_background(params, yes);
            &&& f.cdp_params.format == Some(format)
            &&& q.cdp_params.quality == Some(quality)
            &&& c.cdp_params.clip == Some(clip)
            &&& s.cdp_params.from_surface == Some(yes)
            &&& b.cdp_params.capture_beyond_viewport == Some(yes)
            &&& w.full_page == Some(yes)
            &&& o.omit_background == Some(yes)
            &&& with_format(q, format) == with_quality(f, quality)
            &&& with_format(c, format) == with_clip(f, clip)
            &&& with_format(s, format) == with_from_surface(f, yes)
            &&& with_format(b, format) == with_capture_beyond_viewport(f, yes)
            &&& with_full_page(f, yes) == with_format(w, format)
            &&& with_omit_background(w, yes) == with_full_page(o, yes)
            &&& w.cdp_params == params.cdp_params && o.cdp_params == params.cdp_params
            &&& f.full_page == params.full_page && f.omit_background == params.omit_background
            &&& q.cdp_params.format == params.cdp_params.format
            &&& s.cdp_params.quality == params.cdp_params.quality
            &&& b.cdp_params.from_surface == params.cdp_params.from_surface
            &&& c.cdp_params.capture_beyond_viewport == params.cdp_params.capture_beyond_viewport
            &&& f.cdp_params.clip == params.cdp_params.clip
        }),
{
}

} // verus!
