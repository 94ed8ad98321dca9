//! Blur parameters: what a caller may choose, what is fixed, and what is
//! acceptable.

use vstd::prelude::*;
use vstd::string::*;

verus! {

/// Side of the square kernel that the encoded-body path always uses.
pub const FIXED_KERNEL_SIDE: i32 = 45;

/// Size, in bytes, that the engine is asked to reserve for its encoder
/// output: fifty mebibytes. A hint for the allocation, no limit.
pub const OUTPUT_BUFFER_HINT: usize = 52_428_800;

/// A standard deviation of the Gaussian, held as the bit pattern of its
/// binary64 value. The library never computes with it: it carries the value
/// from the caller to the engine unchanged.
#[derive(Clone, Copy, Debug, PartialEq, Eq, Structural)]
pub struct Sigma {
    pub bits: u64,
}

impl Sigma {
    /// Positive zero, which lets the engine derive the deviation from the
    /// kernel size.
    pub fn zero() -> (sigma: Sigma)
        ensures
            sigma.bits == 0,
    {
        Sigma { bits: 0 }
    }

    pub fn from_bits(bits: u64) -> (sigma: Sigma)
        ensures
            sigma.bits == bits,
    {
        Sigma { bits }
    }

    pub fn to_bits(self) -> (bits: u64)
        ensures
            bits == self.bits,
    {
        self.bits
    }
}

/// How the engine reads an image.
#[derive(Clone, Copy, Debug, PartialEq, Eq, Structural)]
pub enum ReadMode {
    /// Always three colour channels.
    Color,
    /// Channels and bit depth as stored.
    Unchanged,
}

/// How the engine extends an image beyond its edges.
#[derive(Clone, Copy, Debug, PartialEq, Eq, Structural)]
pub enum BorderMode {
    /// The engine's own default policy.
    Default,
}

/// True of the positive odd numbers.
pub open spec fn positive_odd(n: int) -> bool {
    n > 0 && n % 2 == 1
}

/// Width and height of the convolution window.
#[derive(Clone, Copy, Debug, PartialEq, Eq, Structural)]
pub struct Kernel {
    pub width: i32,
    pub height: i32,
}

impl Kernel {
    /// A kernel is acceptable when both sides are positive and odd.
    pub open spec fn spec_is_valid(self) -> bool {
        positive_odd(self.width as int) && positive_odd(self.height as int)
    }

    #[verifier::when_used_as_spec(spec_is_valid)]
    pub fn is_valid(self) -> (ok: bool)
        ensures
            ok == self.spec_is_valid(),
    {
        self.width > 0 && self.width % 2 == 1 && self.height > 0 && self.height % 2 == 1
    }

    /// The kernel of the encoded-body path.
    pub open spec fn spec_fixed() -> Kernel {
        Kernel { width: FIXED_KERNEL_SIDE, height: FIXED_KERNEL_SIDE }
    }

    #[verifier::when_used_as_spec(spec_fixed)]
    pub fn fixed() -> (kernel: Kernel)
        ensures
            kernel == Kernel::spec_fixed(),
            kernel.spec_is_valid(),
    {
        Kernel { width: FIXED_KERNEL_SIDE, height: FIXED_KERNEL_SIDE }
    }
}

/// Everything the engine needs to know to blur one image.
#[derive(Clone, Copy, Debug, PartialEq, Eq, Structural)]
pub struct BlurSettings {
    pub kernel: Kernel,
    pub sigma_x: Sigma,
    pub sigma_y: Sigma,
    pub border: BorderMode,
}

impl BlurSettings {
    /// The settings of the encoded-body path: the fixed kernel, both
    /// deviations zero, the default border.
    pub open spec fn spec_fixed() -> BlurSettings {
        BlurSettings {
            kernel: Kernel::spec_fixed(),
            sigma_x: Sigma { bits: 0 },
            sigma_y: Sigma { bits: 0 },
            border: BorderMode::Default,
        }
    }

    #[verifier::when_used_as_spec(spec_fixed)]
    pub fn fixed() -> (settings: BlurSettings)
        ensures
            settings == BlurSettings::spec_fixed(),
    {
        BlurSettings {
            kernel: Kernel::fixed(),
            sigma_x: Sigma::zero(),
            sigma_y: Sigma::zero(),
            border: BorderMode::Default,
        }
    }
}

/// The output format used where the caller names none.
pub open spec fn default_format() -> Seq<char> {
    ".png"@
}

/// Values of the optional form fields where the caller leaves them out.
#[derive(Clone, Debug, PartialEq, Eq)]
pub struct BlurDefaults {
    pub sigma_y: Sigma,
    pub format: String,
}

impl BlurDefaults {
    /// The service's defaults: a vertical deviation of zero and PNG output.
    pub fn standard() -> (defaults: BlurDefaults)
        ensures
            defaults.sigma_y.bits == 0,
            defaults.format@ == default_format(),
    {
        BlurDefaults { sigma_y: Sigma::zero(), format: String::from_str(".png") }
    }
}

/// The parameters of a multipart request. The uploaded image itself stays
/// with the host, which stores it where the library says.
#[derive(Clone, Debug, PartialEq, Eq)]
pub struct Blur {
    pub ksize_width: i32,
    pub ksize_height: i32,
    pub sigma_x: Sigma,
    pub sigma_y: Sigma,
    pub format: String,
}

/// Mathematical value of a [`Blur`].
pub struct BlurView {
    pub ksize_width: i32,
    pub ksize_height: i32,
    pub sigma_x: Sigma,
    pub sigma_y: Sigma,
    pub format: Seq<char>,
}

impl View for Blur {
    type V = BlurView;

    open spec fn view(&self) -> BlurView {
        BlurView {
            ksize_width: self.ksize_width,
            ksize_height: self.ksize_height,
            sigma_x: self.sigma_x,
            sigma_y: self.sigma_y,
            format: self.format@,
        }
    }
}

impl BlurView {
    pub open spec fn kernel(self) -> Kernel {
        Kernel { width: self.ksize_width, height: self.ksize_height }
    }

    /// What the engine is asked to do for this form.
    pub open spec fn settings(self) -> BlurSettings {
        BlurSettings {
            kernel: self.kernel(),
            sigma_x: self.sigma_x,
            sigma_y: self.sigma_y,
            border: BorderMode::Default,
        }
    }
}

impl Blur {
    /// Builds the form from its fields as they arrived, filling the two
    /// optional ones from the standard defaults.
    pub fn new(
        ksize_width: i32,
        ksize_height: i32,
        sigma_x: Sigma,
        sigma_y: Option<Sigma>,
        format: Option<String>,
    ) -> (form: Blur)
        ensures
            form.ksize_width == ksize_width,
            form.ksize_height == ksize_height,
            form.sigma_x == sigma_x,
            form.sigma_y == (match sigma_y {
                Some(sigma) => sigma,
                None => Sigma { bits: 0 },
            }),
            form.format@ == (match format {
                Some(name) => name@,
                None => default_format(),
            }),
    {
        let defaults = BlurDefaults::standard();
        let sigma_y = match sigma_y {
            Some(sigma) => sigma,
            None => defaults.sigma_y,
        };
        let format = match format {
            Some(name) => name,
            None => defaults.format,
        };
        Blur { ksize_width, ksize_height, sigma_x, sigma_y, format }
    }

    pub fn kernel(&self) -> (kernel: Kernel)
        ensures
            kernel == self@.kernel(),
    {
        Kernel { width: self.ksize_width, height: self.ksize_height }
    }

    pub fn settings(&self) -> (settings: BlurSettings)
        ensures
            settings == self@.settings(),
    {
        BlurSettings {
            kernel: self.kernel(),
            sigma_x: self.sigma_x,
            sigma_y: self.sigma_y,
            border: BorderMode::Default,
        }
    }
}

} // verus!
