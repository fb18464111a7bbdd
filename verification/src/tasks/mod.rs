//! Provider-agnostic captcha task types, and the unified task type.

pub mod cloudflare;
pub mod image_to_text;
pub mod recaptcha;
pub mod turnstile_challenge;
pub mod turnstile_waitroom;

pub use cloudflare::{CloudflareChallenge, Turnstile};
pub use image_to_text::ImageToText;
pub use recaptcha::{EnterprisePayload, ReCaptchaV2, ReCaptchaV3};
pub use turnstile_challenge::{TurnstileChallenge, TurnstileChallengeMode};
pub use turnstile_waitroom::TurnstileWaitRoom;

use vstd::prelude::*;

verus! {

/// Any supported captcha task; providers accept tasks in this form.
#[derive(Debug, Clone)]
pub enum CaptchaTask {
    /// Google reCAPTCHA V2.
    ReCaptchaV2(ReCaptchaV2),
    /// Google reCAPTCHA V3.
    ReCaptchaV3(ReCaptchaV3),
    /// Cloudflare Turnstile widget.
    Turnstile(Turnstile),
    /// Full-page Cloudflare challenge.
    CloudflareChallenge(CloudflareChallenge),
    /// Cloudflare Turnstile challenge (token or `cf_clearance` mode).
    TurnstileChallenge(TurnstileChallenge),
    /// Cloudflare waiting room.
    TurnstileWaitRoom(TurnstileWaitRoom),
    /// Image-to-text captcha.
    ImageToText(ImageToText),
}

/// The display name of a task's kind.
pub open spec fn task_name(t: CaptchaTask) -> Seq<char> {
    match t {
        CaptchaTask::ReCaptchaV2(v2) => if v2.is_invisible && v2.is_enterprise {
            "ReCaptchaV2InvisibleEnterprise"@
        } else if v2.is_invisible {
            "ReCaptchaV2Invisible"@
        } else if v2.is_enterprise {
            "ReCaptchaV2Enterprise"@
        } else {
            "ReCaptchaV2"@
        },
        CaptchaTask::ReCaptchaV3(v3) => if v3.is_enterprise {
            "ReCaptchaV3Enterprise"@
        } else {
            "ReCaptchaV3"@
        },
        CaptchaTask::Turnstile(_) => "Turnstile"@,
        CaptchaTask::CloudflareChallenge(_) => "CloudflareChallenge"@,
        CaptchaTask::TurnstileChallenge(_) => "TurnstileChallenge"@,
        CaptchaTask::TurnstileWaitRoom(_) => "TurnstileWaitRoom"@,
        CaptchaTask::ImageToText(_) => "ImageToText"@,
    }
}

impl CaptchaTask {
    /// The display name of the task's kind.
    pub fn name(&self) -> (s: &'static str)
        ensures
            s@ == task_name(*self),
    {
        match self {
            CaptchaTask::ReCaptchaV2(t) => if t.is_invisible && t.is_enterprise {
                "ReCaptchaV2InvisibleEnterprise"
            } else if t.is_invisible {
                "ReCaptchaV2Invisible"
            } else if t.is_enterprise {
                "ReCaptchaV2Enterprise"
            } else {
                "ReCaptchaV2"
            },
            CaptchaTask::ReCaptchaV3(t) => if t.is_enterprise {
                "ReCaptchaV3Enterprise"
            } else {
                "ReCaptchaV3"
            },
            CaptchaTask::Turnstile(_) => "Turnstile",
            CaptchaTask::CloudflareChallenge(_) => "CloudflareChallenge",
            CaptchaTask::TurnstileChallenge(_) => "TurnstileChallenge",
            CaptchaTask::TurnstileWaitRoom(_) => "TurnstileWaitRoom",
            CaptchaTask::ImageToText(_) => "ImageToText",
        }
    }

    /// The display name of the task's kind, as an owned string.
    pub fn to_string(&self) -> (s: String)
        ensures
            s@ == task_name(*self),
    {
        self.name().to_string()
    }
}

impl From<ReCaptchaV2> for CaptchaTask {
    fn from(t: ReCaptchaV2) -> (r: Self) {
        CaptchaTask::ReCaptchaV2(t)
    }
}

impl vstd::std_specs::convert::FromSpecImpl<ReCaptchaV2> for CaptchaTask {
    open spec fn obeys_from_spec() -> bool {
        true
    }

    open spec fn from_spec(t: ReCaptchaV2) -> CaptchaTask {
        CaptchaTask::ReCaptchaV2(t)
    }
}

impl From<ReCaptchaV3> for CaptchaTask {
    fn from(t: ReCaptchaV3) -> (r: Self) {
        CaptchaTask::ReCaptchaV3(t)
    }
}

impl vstd::std_specs::convert::FromSpecImpl<ReCaptchaV3> for CaptchaTask {
    open spec fn obeys_from_spec() -> bool {
        true
    }

    open spec fn from_spec(t: ReCaptchaV3) -> CaptchaTask {
        CaptchaTask::ReCaptchaV3(t)
    }
}

impl From<Turnstile> for CaptchaTask {
    fn from(t: Turnstile) -> (r: Self) {
        CaptchaTask::Turnstile(t)
    }
}

impl vstd::std_specs::convert::FromSpecImpl<Turnstile> for CaptchaTask {
    open spec fn obeys_from_spec() -> bool {
        true
    }

    open spec fn from_spec(t: Turnstile) -> CaptchaTask {
        CaptchaTask::Turnstile(t)
    }
}

impl From<CloudflareChallenge> for CaptchaTask {
    fn from(t: CloudflareChallenge) -> (r: Self) {
        CaptchaTask::CloudflareChallenge(t)
    }
}

impl vstd::std_specs::convert::FromSpecImpl<CloudflareChallenge> for CaptchaTask {
    open spec fn obeys_from_spec() -> bool {
        true
    }

    open spec fn from_spec(t: CloudflareChallenge) -> CaptchaTask {
        CaptchaTask::CloudflareChallenge(t)
    }
}

impl From<TurnstileChallenge> for CaptchaTask {
    fn from(t: TurnstileChallenge) -> (r: Self) {
        CaptchaTask::TurnstileChallenge(t)
    }
}

impl vstd::std_specs::convert::FromSpecImpl<TurnstileChallenge> for CaptchaTask {
    open spec fn obeys_from_spec() -> bool {
        true
    }

    open spec fn from_spec(t: TurnstileChallenge) -> CaptchaTask {
        CaptchaTask::TurnstileChallenge(t)
    }
}

impl From<TurnstileWaitRoom> for CaptchaTask {
    fn from(t: TurnstileWaitRoom) -> (r: Self) {
        CaptchaTask::TurnstileWaitRoom(t)
    }
}

impl vstd::std_specs::convert::FromSpecImpl<TurnstileWaitRoom> for CaptchaTask {
    open spec fn obeys_from_spec() -> bool {
        true
    }

    open spec fn from_spec(t: TurnstileWaitRoom) -> CaptchaTask {
        CaptchaTask::TurnstileWaitRoom(t)
    }
}

impl From<ImageToText> for CaptchaTask {
    fn from(t: ImageToText) -> (r: Self) {
        CaptchaTask::ImageToText(t)
    }
}

impl vstd::std_specs::convert::FromSpecImpl<ImageToText> for CaptchaTask {
    open spec fn obeys_from_spec() -> bool {
        true
    }

    open spec fn from_spec(t: ImageToText) -> CaptchaTask {
        CaptchaTask::ImageToText(t)
    }
}

} // verus!
