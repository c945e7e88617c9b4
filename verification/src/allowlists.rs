//! The lists of scripts and resources that the network layer knows by name.
use vstd::prelude::*;

use crate::matcher::{modest, texts, UrlMatcher};
use crate::text::same_text;

verus! {

/// Patterns of popular libraries and resources.
pub open spec fn js_framework_allow() -> Seq<Seq<char>> {
    seq![
        "jquery"@,
        "angular"@,
        "react"@,
        "vue"@,
        "bootstrap"@,
        "d3"@,
        "lodash"@,
        "ajax"@,
        "application"@,
        "app"@,
        "main"@,
        "index"@,
        "bundle"@,
        "vendor"@,
        "runtime"@,
        "polyfill"@,
        "scripts"@,
        "es2015."@,
        "es2020."@,
        "webpack"@,
        "captcha"@,
        "client"@,
        "/cdn-cgi/challenge-platform/"@,
        "/wp-content/js/"@,
        "https://m.stripe.network/"@,
        "https://challenges.cloudflare.com/"@,
        "https://www.google.com/recaptcha/"@,
        "https://google.com/recaptcha/api.js"@,
        "https://www.gstatic.com/recaptcha/"@,
        "https://captcha.px-cloud.net/"@,
        "https://geo.captcha-delivery.com/"@,
        "https://api.leminnow.com/captcha/"@,
        "https://cdn.auth0.com/js/lock/"@,
        "https://captcha.gtimg.com"@,
        "https://client-api.arkoselabs.com/"@,
        "https://www.capy.me/puzzle/"@,
        "https://newassets.hcaptcha.com/"@,
        "https://cdn.auth0.com/client"@,
        "https://js.stripe.com/"@,
        "https://cdn.prod.website-files.com/"@,
        "https://cdnjs.cloudflare.com/"@,
        "https://code.jquery.com/jquery-"@,
    ]
}

/// The list is far below the limits of an automaton.
proof fn lemma_js_framework_allow_modest()
    ensures
        modest(js_framework_allow()),
{
    reveal_strlit("jquery");
    reveal_strlit("angular");
    reveal_strlit("react");
    reveal_strlit("vue");
    reveal_strlit("bootstrap");
    reveal_strlit("d3");
    reveal_strlit("lodash");
    reveal_strlit("ajax");
    reveal_strlit("application");
    reveal_strlit("app");
    reveal_strlit("main");
    reveal_strlit("index");
    reveal_strlit("bundle");
    reveal_strlit("vendor");
    reveal_strlit("runtime");
    reveal_strlit("polyfill");
    reveal_strlit("scripts");
    reveal_strlit("es2015.");
    reveal_strlit("es2020.");
    reveal_strlit("webpack");
    reveal_strlit("captcha");
    reveal_strlit("client");
    reveal_strlit("/cdn-cgi/challenge-platform/");
    reveal_strlit("/wp-content/js/");
    reveal_strlit("https://m.stripe.network/");
    reveal_strlit("https://challenges.cloudflare.com/");
    reveal_strlit("https://www.google.com/recaptcha/");
    reveal_strlit("https://google.com/recaptcha/api.js");
    reveal_strlit("https://www.gstatic.com/recaptcha/");
    reveal_strlit("https://captcha.px-cloud.net/");
    reveal_strlit("https://geo.captcha-delivery.com/");
    reveal_strlit("https://api.leminnow.com/captcha/");
    reveal_strlit("https://cdn.auth0.com/js/lock/");
    reveal_strlit("https://captcha.gtimg.com");
    reveal_strlit("https://client-api.arkoselabs.com/");
    reveal_strlit("https://www.capy.me/puzzle/");
    reveal_strlit("https://newassets.hcaptcha.com/");
    reveal_strlit("https://cdn.auth0.com/client");
    reveal_strlit("https://js.stripe.com/");
    reveal_strlit("https://cdn.prod.website-files.com/");
    reveal_strlit("https://cdnjs.cloudflare.com/");
    reveal_strlit("https://code.jquery.com/jquery-");
}

/// The scripts that are rendered by name.
///
/// Scripts are allowed unless a block list has them, so this is no gate.
pub fn allowed_matcher() -> (matcher: UrlMatcher)
    ensures
        matcher@ == js_framework_allow(),
{
    let patterns: Vec<String> = vec![
        "jquery".to_owned(),
        "angular".to_owned(),
        "react".to_owned(),
        "vue".to_owned(),
        "bootstrap".to_owned(),
        "d3".to_owned(),
        "lodash".to_owned(),
        "ajax".to_owned(),
        "application".to_owned(),
        "app".to_owned(),
        "main".to_owned(),
        "index".to_owned(),
        "bundle".to_owned(),
        "vendor".to_owned(),
        "runtime".to_owned(),
        "polyfill".to_owned(),
        "scripts".to_owned(),
        "es2015.".to_owned(),
        "es2020.".to_owned(),
        "webpack".to_owned(),
        "captcha".to_owned(),
        "client".to_owned(),
        "/cdn-cgi/challenge-platform/".to_owned(),
        "/wp-content/js/".to_owned(),
        "https://m.stripe.network/".to_owned(),
        "https://challenges.cloudflare.com/".to_owned(),
        "https://www.google.com/recaptcha/".to_owned(),
        "https://google.com/recaptcha/api.js".to_owned(),
        "https://www.gstatic.com/recaptcha/".to_owned(),
        "https://captcha.px-cloud.net/".to_owned(),
        "https://geo.captcha-delivery.com/".to_owned(),
        "https://api.leminnow.com/captcha/".to_owned(),
        "https://cdn.auth0.com/js/lock/".to_owned(),
        "https://captcha.gtimg.com".to_owned(),
        "https://client-api.arkoselabs.com/".to_owned(),
        "https://www.capy.me/puzzle/".to_owned(),
        "https://newassets.hcaptcha.com/".to_owned(),
        "https://cdn.auth0.com/client".to_owned(),
        "https://js.stripe.com/".to_owned(),
        "https://cdn.prod.website-files.com/".to_owned(),
        "https://cdnjs.cloudflare.com/".to_owned(),
        "https://code.jquery.com/jquery-".to_owned(),
    ];
    proof {
        lemma_js_framework_allow_modest();
        assert(texts(patterns@) =~= js_framework_allow());
    }
    UrlMatcher::new(&patterns).unwrap()
}

/// Third parties whose scripts are let through.
pub open spec fn js_framework_allow_3rd_party() -> Seq<Seq<char>> {
    seq![
        "https://m.stripe.network/"@,
        "https://challenges.cloudflare.com/"@,
        "https://js.stripe.com/"@,
        "https://cdn.prod.website-files.com/"@,
        "https://cdnjs.cloudflare.com/"@,
        "https://code.jquery.com/jquery-"@,
        "https://ct.captcha-delivery.com/"@,
        "https://geo.captcha-delivery.com/"@,
        "https://img1.wsimg.com/parking-lander/static/js/main.d9ebbb8c.js"@,
        "https://cdn.auth0.com/client"@,
        "https://captcha.px-cloud.net/"@,
        "https://www.capy.me/puzzle/"@,
        "https://www.gstatic.com/recaptcha/"@,
        "https://google.com/recaptcha/"@,
        "https://www.google.com/recaptcha/"@,
        "https://www.recaptcha.net/recaptcha/"@,
        "https://js.hcaptcha.com/1/api.js"@,
        "https://hcaptcha.com/1/api.js"@,
        "https://js.datadome.co/tags.js"@,
        "https://api-js.datadome.co/"@,
        "https://client.perimeterx.net/"@,
        "https://captcha.px-cdn.net/"@,
        "https://newassets.hcaptcha.com/"@,
        "https://captcha.px-cloud.net/"@,
        "https://s.perimeterx.net/"@,
        "https://api.leminnow.com/captcha/"@,
        "https://client-api.arkoselabs.com/"@,
        "https://static.geetest.com/v4/gt4.js"@,
        "https://static.geetest.com/"@,
        "https://cdn.jsdelivr.net/npm/@friendlycaptcha/"@,
        "https://cdn.perfdrive.com/aperture/"@,
        "https://assets.queue-it.net/"@,
        "discourse-cdn.com/"@,
        "hcaptcha.com"@,
        "/cdn-cgi/challenge-platform/"@,
        "/_Incapsula_Resource"@,
    ]
}

/// The list is far below the limits of an automaton.
proof fn lemma_js_framework_allow_3rd_party_modest()
    ensures
        modest(js_framework_allow_3rd_party()),
{
    reveal_strlit("https://m.stripe.network/");
    reveal_strlit("https://challenges.cloudflare.com/");
    reveal_strlit("https://js.stripe.com/");
    reveal_strlit("https://cdn.prod.website-files.com/");
    reveal_strlit("https://cdnjs.cloudflare.com/");
    reveal_strlit("https://code.jquery.com/jquery-");
    reveal_strlit("https://ct.captcha-delivery.com/");
    reveal_strlit("https://geo.captcha-delivery.com/");
    reveal_strlit("https://img1.wsimg.com/parking-lander/static/js/main.d9ebbb8c.js");
    reveal_strlit("https://cdn.auth0.com/client");
    reveal_strlit("https://captcha.px-cloud.net/");
    reveal_strlit("https://www.capy.me/puzzle/");
    reveal_strlit("https://www.gstatic.com/recaptcha/");
    reveal_strlit("https://google.com/recaptcha/");
    reveal_strlit("https://www.google.com/recaptcha/");
    reveal_strlit("https://www.recaptcha.net/recaptcha/");
    reveal_strlit("https://js.hcaptcha.com/1/api.js");
    reveal_strlit("https://hcaptcha.com/1/api.js");
    reveal_strlit("https://js.datadome.co/tags.js");
    reveal_strlit("https://api-js.datadome.co/");
    reveal_strlit("https://client.perimeterx.net/");
    reveal_strlit("https://captcha.px-cdn.net/");
    reveal_strlit("https://newassets.hcaptcha.com/");
    reveal_strlit("https://s.perimeterx.net/");
    reveal_strlit("https://api.leminnow.com/captcha/");
    reveal_strlit("https://client-api.arkoselabs.com/");
    reveal_strlit("https://static.geetest.com/v4/gt4.js");
    reveal_strlit("https://static.geetest.com/");
    reveal_strlit("https://cdn.jsdelivr.net/npm/@friendlycaptcha/");
    reveal_strlit("https://cdn.perfdrive.com/aperture/");
    reveal_strlit("https://assets.queue-it.net/");
    reveal_strlit("discourse-cdn.com/");
    reveal_strlit("hcaptcha.com");
    reveal_strlit("/cdn-cgi/challenge-platform/");
    reveal_strlit("/_Incapsula_Resource");
}

/// The third-party scripts that are let through although a block list has them.
pub fn allowed_matcher_3rd_party() -> (matcher: UrlMatcher)
    ensures
        matcher@ == js_framework_allow_3rd_party(),
{
    let patterns: Vec<String> = vec![
        "https://m.stripe.network/".to_owned(),
        "https://challenges.cloudflare.com/".to_owned(),
        "https://js.stripe.com/".to_owned(),
        "https://cdn.prod.website-files.com/".to_owned(),
        "https://cdnjs.cloudflare.com/".to_owned(),
        "https://code.jquery.com/jquery-".to_owned(),
        "https://ct.captcha-delivery.com/".to_owned(),
        "https://geo.captcha-delivery.com/".to_owned(),
        "https://img1.wsimg.com/parking-lander/static/js/main.d9ebbb8c.js".to_owned(),
        "https://cdn.auth0.com/client".to_owned(),
        "https://captcha.px-cloud.net/".to_owned(),
        "https://www.capy.me/puzzle/".to_owned(),
        "https://www.gstatic.com/recaptcha/".to_owned(),
        "https://google.com/recaptcha/".to_owned(),
        "https://www.google.com/recaptcha/".to_owned(),
        "https://www.recaptcha.net/recaptcha/".to_owned(),
        "https://js.hcaptcha.com/1/api.js".to_owned(),
        "https://hcaptcha.com/1/api.js".to_owned(),
        "https://js.datadome.co/tags.js".to_owned(),
        "https://api-js.datadome.co/".to_owned(),
        "https://client.perimeterx.net/".to_owned(),
        "https://captcha.px-cdn.net/".to_owned(),
        "https://newassets.hcaptcha.com/".to_owned(),
        "https://captcha.px-cloud.net/".to_owned(),
        "https://s.perimeterx.net/".to_owned(),
        "https://api.leminnow.com/captcha/".to_owned(),
        "https://client-api.arkoselabs.com/".to_owned(),
        "https://static.geetest.com/v4/gt4.js".to_owned(),
        "https://static.geetest.com/".to_owned(),
        "https://cdn.jsdelivr.net/npm/@friendlycaptcha/".to_owned(),
        "https://cdn.perfdrive.com/aperture/".to_owned(),
        "https://assets.queue-it.net/".to_owned(),
        "discourse-cdn.com/".to_owned(),
        "hcaptcha.com".to_owned(),
        "/cdn-cgi/challenge-platform/".to_owned(),
        "/_Incapsula_Resource".to_owned(),
    ];
    proof {
        lemma_js_framework_allow_3rd_party_modest();
        assert(texts(patterns@) =~= js_framework_allow_3rd_party());
    }
    UrlMatcher::new(&patterns).unwrap()
}

/// Is the text one of the list?
fn is_one_of(text: &str, list: &Vec<&'static str>) -> (found: bool)
    ensures
        found == exists|i: int| 0 <= i < list.len() && (#[trigger] list@[i])@ == text@,
{
    let mut i: usize = 0;
    while i < list.len()
        invariant
            i <= list.len(),
            forall|j: int| 0 <= j < i ==> (#[trigger] list@[j])@ != text@,
        decreases list.len() - i,
    {
        if same_text(text, list[i]) {
            return true;
        }
        i = i + 1;
    }
    false
}

/// The paths of script frameworks.
pub open spec fn js_framework_paths() -> Seq<Seq<char>> {
    seq![
        "_astro/"@,
        "_app/immutable"@,
    ]
}

/// The content types that are no text.
pub open spec fn ignored_content_types() -> Seq<Seq<char>> {
    seq![
        "application/pdf"@,
        "application/zip"@,
        "application/x-rar-compressed"@,
        "application/x-tar"@,
        "image/png"@,
        "image/jpeg"@,
        "image/gif"@,
        "image/bmp"@,
        "image/webp"@,
        "image/svg+xml"@,
        "video/mp4"@,
        "video/x-msvideo"@,
        "video/x-matroska"@,
        "video/webm"@,
        "audio/mpeg"@,
        "audio/ogg"@,
        "application/vnd.openxmlformats-officedocument.wordprocessingml.document"@,
        "application/vnd.ms-excel"@,
        "application/vnd.openxmlformats-officedocument.spreadsheetml.sheet"@,
        "application/vnd.ms-powerpoint"@,
        "application/vnd.openxmlformats-officedocument.presentationml.presentation"@,
        "application/x-7z-compressed"@,
        "application/x-rpm"@,
        "application/x-shockwave-flash"@,
        "application/rtf"@,
    ]
}

/// Is the text the path of a script framework?
pub fn js_framework_path(text: &str) -> (yes: bool)
    ensures
        yes == js_framework_paths().contains(text@),
{
    let list: Vec<&'static str> = vec![
        "_astro/",
        "_app/immutable",
    ];
    proof {
        assert(list@.map_values(|s: &'static str| s@) =~= js_framework_paths());
        assert forall|i: int| 0 <= i < list.len() implies (#[trigger] list@[i])@ == js_framework_paths()[i] by {
            assert(list@.map_values(|s: &'static str| s@)[i] == list@[i]@);
        }
    }
    let found = is_one_of(text, &list);
    proof {
        if js_framework_paths().contains(text@) {
            let i = choose|i: int|
                0 <= i < js_framework_paths().len() && js_framework_paths()[i] == text@;
            assert(list@[i]@ == text@);
        }
    }
    found
}

/// Is the content type one that is no text?
pub fn ignore_content_type(text: &str) -> (yes: bool)
    ensures
        yes == ignored_content_types().contains(text@),
{
    let list: Vec<&'static str> = vec![
        "application/pdf",
        "application/zip",
        "application/x-rar-compressed",
        "application/x-tar",
        "image/png",
        "image/jpeg",
        "image/gif",
        "image/bmp",
        "image/webp",
        "image/svg+xml",
        "video/mp4",
        "video/x-msvideo",
        "video/x-matroska",
        "video/webm",
        "audio/mpeg",
        "audio/ogg",
        "application/vnd.openxmlformats-officedocument.wordprocessingml.document",
        "application/vnd.ms-excel",
        "application/vnd.openxmlformats-officedocument.spreadsheetml.sheet",
        "application/vnd.ms-powerpoint",
        "application/vnd.openxmlformats-officedocument.presentationml.presentation",
        "application/x-7z-compressed",
        "application/x-rpm",
        "application/x-shockwave-flash",
        "application/rtf",
    ];
    proof {
        assert(list@.map_values(|s: &'static str| s@) =~= ignored_content_types());
        assert forall|i: int| 0 <= i < list.len() implies (#[trigger] list@[i])@
            == ignored_content_types()[i] by {
            assert(list@.map_values(|s: &'static str| s@)[i] == list@[i]@);
        }
    }
    let found = is_one_of(text, &list);
    proof {
        if ignored_content_types().contains(text@) {
            let i = choose|i: int|
                0 <= i < ignored_content_types().len() && ignored_content_types()[i] == text@;
            assert(list@[i]@ == text@);
        }
    }
    found
}

} // verus!
