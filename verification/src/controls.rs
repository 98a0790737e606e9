//! The control panel's state: which effect and image are selected, and the values of
//! the effect's settings.

use vstd::prelude::*;
use crate::effect::{ParameterField, Shader};
use crate::layout::{Scalar, ONE_BITS, ZERO_BITS};
use crate::parameters::Parameters;

verus! {

/// Bit pattern of the number of quantization levels every parameter block carries: 32.
pub const DEFAULT_COLORS_BITS: u32 = 0x4200_0000;

/// A colour with its four channels in the range from zero to one.
#[derive(Debug, Clone, Copy, PartialEq, Eq, Structural)]
pub struct Color {
    pub r: Scalar,
    pub g: Scalar,
    pub b: Scalar,
    pub a: Scalar,
}

/// The value of a setting with the largest value and the step its input allows.
#[allow(inconsistent_fields)]
#[derive(Debug, Clone, Copy, PartialEq, Eq, Structural)]
pub enum Setting {
    Real { value: Scalar, max: Scalar, step: Scalar },
    Whole { value: i32, max: i32, step: i32 },
}

/// One number input of the panel.
#[derive(Debug, Clone, Copy, PartialEq, Eq, Structural)]
pub struct NumberInput {
    pub field: ParameterField,
    pub setting: Setting,
}

/// What the panel reports to the controls.
#[derive(Debug)]
pub enum Message {
    BackgroundColorChanged(Color),
    InputChanged(String),
    Sigma1Changed(Scalar),
    TauChanged(Scalar),
    GFactChanged(Scalar),
    IsFactChanged(i32),
    ShaderSelected(Shader),
    ImageChanger(),
    TakeScreenshot(),
    ToggleUI(),
}

/// What the host has to do after a message.
#[derive(Debug, Clone, Copy, PartialEq, Eq, Structural)]
pub enum Action {
    /// Nothing.
    Idle,
    /// Let the user pick an image file and report it with `Controls::image_chosen`.
    ChooseImage,
    /// Save a picture of the window.
    SaveScreenshot,
}

/// The state of the control panel.
#[derive(Debug)]
pub struct Controls {
    pub background_color: Color,
    pub input: String,
    pub shaders: Vec<Shader>,
    pub selected_shader: Option<Shader>,
    pub selected_image: String,
    pub did_change: bool,
    pub show_ui: bool,
    pub sigma1: Scalar,
    pub tau: Scalar,
    pub gfact: Scalar,
    pub epsilon: Scalar,
    pub num_gvf_iterations: i32,
    pub enable_xdog: u32,
}

/// `path` with every backslash turned into a forward slash.
pub open spec fn forward_slashes(path: Seq<char>) -> Seq<char> {
    Seq::new(path.len(), |i: int| if path[i] == '\\' { '/' } else { path[i] })
}

/// Where the last component of `path` starts: behind its last forward slash, or at
/// its start if it has none.
pub open spec fn name_start(path: Seq<char>) -> int
    decreases path.len(),
{
    if path.len() == 0 {
        0
    } else if path.last() == '/' {
        path.len() as int
    } else {
        name_start(path.drop_last())
    }
}

/// The last component of `path`: what follows its last forward slash.
pub open spec fn file_name(path: Seq<char>) -> Seq<char> {
    path.subrange(name_start(path), path.len() as int)
}

/// The last component of a path holds no forward slash, and what stands before it is
/// empty or ends in one.
pub proof fn lemma_file_name(path: Seq<char>)
    ensures
        0 <= name_start(path) <= path.len(),
        name_start(path) > 0 ==> path[name_start(path) - 1] == '/',
        forall|i: int| name_start(path) <= i < path.len() ==> path[i] != '/',
        path == path.take(name_start(path)) + file_name(path),
    decreases path.len(),
{
    if path.len() > 0 && path.last() != '/' {
        let shorter = path.drop_last();
        lemma_file_name(shorter);
        assert forall|i: int| name_start(path) <= i < path.len() implies path[i] != '/' by {
            if i < shorter.len() {
                assert(shorter[i] == path[i]);
            }
        }
    }
    assert(path =~= path.take(name_start(path)) + file_name(path));
}

impl Message {
    /// What the host has to do after this message.
    pub open spec fn action(self) -> Action {
        match self {
            Message::ImageChanger() => Action::ChooseImage,
            Message::TakeScreenshot() => Action::SaveScreenshot,
            _ => Action::Idle,
        }
    }
}

impl Shader {
    /// The number inputs the panel shows for this effect.
    pub open spec fn inputs(self, controls: Controls) -> Seq<NumberInput> {
        Seq::new(self.fields().len(), |i: int| controls.input(self.fields()[i]))
    }

    /// Lists the number inputs the panel shows for this effect, with the current values
    /// of `controls`. The pass-through effect has none.
    pub fn get_parameters(&self, controls: &Controls) -> (inputs: Vec<NumberInput>)
        ensures
            inputs@ == self.inputs(*controls),
    {
        let mut inputs: Vec<NumberInput> = Vec::new();
        match self {
            Shader::gaussian_blur => {
                inputs.push(controls.number_input(ParameterField::Sigma));
            },
            Shader::difference_of_gaussians_DoG => {
                inputs.push(controls.number_input(ParameterField::Sigma));
                inputs.push(controls.number_input(ParameterField::Tau));
            },
            Shader::flow_based_XDoG => {
                inputs.push(controls.number_input(ParameterField::Sigma));
                inputs.push(controls.number_input(ParameterField::Tau));
                inputs.push(controls.number_input(ParameterField::Gamma));
                inputs.push(controls.number_input(ParameterField::Iterations));
            },
            _ => {},
        }
        assert(inputs@ =~= self.inputs(*controls));
        inputs
    }
}

impl Controls {
    /// The controls after `message`.
    pub open spec fn after(self, message: Message) -> Controls {
        match message {
            Message::BackgroundColorChanged(color) => Controls { background_color: color, ..self },
            Message::InputChanged(input) => Controls { input, ..self },
            Message::Sigma1Changed(value) => Controls { sigma1: value, ..self },
            Message::TauChanged(value) => Controls { tau: value, ..self },
            Message::GFactChanged(value) => Controls { gfact: value, ..self },
            Message::IsFactChanged(value) => Controls { num_gvf_iterations: value, ..self },
            Message::ShaderSelected(shader) => Controls { selected_shader: Some(shader), ..self },
            Message::ImageChanger() => self,
            Message::TakeScreenshot() => self,
            Message::ToggleUI() => Controls { show_ui: !self.show_ui, ..self },
        }
    }

    /// The number input for `field`: its current value, and the bounds of the setting.
    /// Sigma goes up to 10 in steps of 0.1, tau up to 0.3 in steps of 0.01, gamma up to
    /// 10 in steps of 0.5, and the iterations up to 30 one by one.
    pub open spec fn input(self, field: ParameterField) -> NumberInput {
        let setting = match field {
            ParameterField::Sigma => Setting::Real {
                value: self.sigma1,
                max: Scalar { bits: 0x4120_0000 },
                step: Scalar { bits: 0x3DCC_CCCD },
            },
            ParameterField::Tau => Setting::Real {
                value: self.tau,
                max: Scalar { bits: 0x3E99_999A },
                step: Scalar { bits: 0x3C23_D70A },
            },
            ParameterField::Gamma => Setting::Real {
                value: self.gfact,
                max: Scalar { bits: 0x4120_0000 },
                step: Scalar { bits: 0x3F00_0000 },
            },
            ParameterField::Iterations => Setting::Whole {
                value: self.num_gvf_iterations,
                max: 30,
                step: 1,
            },
        };
        NumberInput { field, setting }
    }

    /// Describes the number input for `field`.
    pub fn number_input(&self, field: ParameterField) -> (input: NumberInput)
        ensures
            input == self.input(field),
    {
        let setting = match field {
            ParameterField::Sigma => Setting::Real {
                value: self.sigma1,
                max: Scalar::from_bits(0x4120_0000),
                step: Scalar::from_bits(0x3DCC_CCCD),
            },
            ParameterField::Tau => Setting::Real {
                value: self.tau,
                max: Scalar::from_bits(0x3E99_999A),
                step: Scalar::from_bits(0x3C23_D70A),
            },
            ParameterField::Gamma => Setting::Real {
                value: self.gfact,
                max: Scalar::from_bits(0x4120_0000),
                step: Scalar::from_bits(0x3F00_0000),
            },
            ParameterField::Iterations => Setting::Whole {
                value: self.num_gvf_iterations,
                max: 30,
                step: 1,
            },
        };
        NumberInput { field, setting }
    }

    /// The parameter block for these controls and the effect `shader`.
    pub open spec fn block(self, shader: Shader) -> Parameters {
        Parameters {
            sigma1: self.sigma1,
            tau: self.tau,
            gfact: self.gfact,
            epsilon: self.epsilon,
            num_gvf_iterations: self.num_gvf_iterations,
            enable_xdog: self.enable_xdog,
            shader_index: shader.index(),
            colors: Scalar { bits: DEFAULT_COLORS_BITS },
        }
    }

    /// The controls a session starts with: a black background, the panel shown, the
    /// pass-through effect, and `selected_image` as the image.
    pub fn new(selected_image: &str) -> (controls: Controls)
        ensures
            controls.background_color == (Color {
                r: Scalar { bits: ZERO_BITS },
                g: Scalar { bits: ZERO_BITS },
                b: Scalar { bits: ZERO_BITS },
                a: Scalar { bits: ONE_BITS },
            }),
            controls.input@ == Seq::<char>::empty(),
            controls.shaders@ == Shader::all(),
            controls.selected_shader == Some(Shader::none),
            controls.selected_image@ == selected_image@,
            !controls.did_change,
            controls.show_ui,
            controls.sigma1.bits == 0x4098_0000,
            controls.tau.bits == 0x3D99_999A,
            controls.gfact.bits == 0x4100_0000,
            controls.epsilon.bits == 0x38D1_B717,
            controls.num_gvf_iterations == 15,
            controls.enable_xdog == 1,
    {
        Controls {
            background_color: Color {
                r: Scalar::zero(),
                g: Scalar::zero(),
                b: Scalar::zero(),
                a: Scalar::one(),
            },
            input: String::new(),
            shaders: Shader::options(),
            selected_shader: Some(Shader::none),
            selected_image: selected_image.to_owned(),
            did_change: false,
            show_ui: true,
            sigma1: Scalar::from_bits(0x4098_0000),
            tau: Scalar::from_bits(0x3D99_999A),
            gfact: Scalar::from_bits(0x4100_0000),
            epsilon: Scalar::from_bits(0x38D1_B717),
            num_gvf_iterations: 15,
            enable_xdog: 1,
        }
    }

    /// Records whether the selected image changed since the host last looked.
    pub fn update_did_change(&mut self, v: bool)
        ensures
            *final(self) == (Controls { did_change: v, ..*old(self) }),
    {
        self.did_change = v;
    }

    /// The colour the target is cleared to.
    pub fn background_color(&self) -> (color: Color)
        ensures
            color == self.background_color,
    {
        self.background_color
    }

    /// The parameter block of the selected effect with the current settings.
    pub fn params(&self) -> (block: Parameters)
        requires
            self.selected_shader is Some,
        ensures
            block == self.block(self.selected_shader->0),
    {
        Parameters {
            sigma1: self.sigma1,
            tau: self.tau,
            gfact: self.gfact,
            epsilon: self.epsilon,
            num_gvf_iterations: self.num_gvf_iterations,
            enable_xdog: self.enable_xdog,
            shader_index: self.selected_shader.unwrap().get_index(),
            colors: Scalar::from_bits(DEFAULT_COLORS_BITS),
        }
    }

    /// Applies a message of the panel and tells the host what is left for it to do.
    pub fn update(&mut self, message: Message) -> (action: Action)
        ensures
            *final(self) == old(self).after(message),
            action == message.action(),
    {
        match message {
            Message::BackgroundColorChanged(color) => {
                self.background_color = color;
                Action::Idle
            },
            Message::InputChanged(input) => {
                self.input = input;
                Action::Idle
            },
            Message::ShaderSelected(shader) => {
                self.selected_shader = Some(shader);
                Action::Idle
            },
            Message::Sigma1Changed(v) => {
                self.sigma1 = v;
                Action::Idle
            },
            Message::TauChanged(v) => {
                self.tau = v;
                Action::Idle
            },
            Message::GFactChanged(v) => {
                self.gfact = v;
                Action::Idle
            },
            Message::IsFactChanged(v) => {
                self.num_gvf_iterations = v;
                Action::Idle
            },
            Message::ImageChanger() => Action::ChooseImage,
            Message::TakeScreenshot() => Action::SaveScreenshot,
            Message::ToggleUI() => {
                self.show_ui = !self.show_ui;
                Action::Idle
            },
        }
    }

    /// Selects the image the user picked after `Action::ChooseImage`, with forward
    /// slashes for backslashes in its path.
    pub fn image_chosen(&mut self, path: &str)
        ensures
            final(self).selected_image@ == forward_slashes(path@),
            *final(self) == (Controls {
                selected_image: final(self).selected_image,
                did_change: true,
                ..*old(self)
            }),
    {
        let length = path.unicode_len();
        let mut normalized = String::new();
        let mut i: usize = 0;
        while i < length
            invariant
                length == path@.len(),
                i <= length,
                normalized@ == forward_slashes(path@.take(i as int)),
            decreases length - i,
        {
            if path.get_char(i) == '\\' {
                proof {
                    reveal_strlit("/");
                }
                normalized.append("/");
            } else {
                normalized.append(path.substring_char(i, i + 1));
            }
            assert(normalized@ =~= forward_slashes(path@.take(i + 1)));
            i += 1;
        }
        assert(path@.take(i as int) =~= path@);
        self.selected_image = normalized;
        self.did_change = true;
    }

    /// The label of the image button: the file name of the selected image.
    pub fn image_label(&self) -> (label: &str)
        ensures
            label@ == file_name(self.selected_image@),
    {
        let path = self.selected_image.as_str();
        let length = path.unicode_len();
        let mut start: usize = 0;
        let mut i: usize = 0;
        while i < length
            invariant
                length == path@.len(),
                i <= length,
                start == name_start(path@.take(i as int)),
                start <= i,
            decreases length - i,
        {
            assert(path@.take(i + 1).drop_last() =~= path@.take(i as int));
            if path.get_char(i) == '/' {
                start = i + 1;
            }
            i += 1;
        }
        assert(path@.take(i as int) =~= path@);
        path.substring_char(start, length)
    }
}

} // verus!
