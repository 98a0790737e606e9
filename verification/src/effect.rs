//! The closed set of shader effects and their numeric codes.

use vstd::prelude::*;

verus! {

/// Code stored in the parameter block for the pass-through effect.
pub const PASSTHROUGH_INDEX: u32 = 100;

/// A setting of an effect that the panel offers for editing.
#[derive(Debug, Clone, Copy, PartialEq, Eq, Structural)]
pub enum ParameterField {
    Sigma,
    Tau,
    Gamma,
    Iterations,
}

impl ParameterField {
    /// The text the panel shows beside the input of this setting.
    pub fn label(&self) -> (label: &'static str)
        ensures
            label@ == match self {
                ParameterField::Sigma => "sigma"@,
                ParameterField::Tau => "tau"@,
                ParameterField::Gamma => "gamma"@,
                ParameterField::Iterations => "iterations"@,
            },
    {
        match self {
            ParameterField::Sigma => "sigma",
            ParameterField::Tau => "tau",
            ParameterField::Gamma => "gamma",
            ParameterField::Iterations => "iterations",
        }
    }
}

/// One of the image effects the fragment stage can apply.
#[allow(non_camel_case_types)]
#[derive(Debug, Clone, Copy, PartialEq, Eq, Default, Structural)]
pub enum Shader {
    #[default]
    none,
    invert,
    gaussian_blur,
    quantization,
    sobel_edge_detection,
    difference_of_gaussians_DoG,
    flow_based_XDoG,
    edge_direction,
    bayer_dither,
}

impl Shader {
    /// Every effect, in the order in which the panel offers them.
    pub open spec fn all() -> Seq<Shader> {
        seq![
            Shader::none,
            Shader::invert,
            Shader::gaussian_blur,
            Shader::quantization,
            Shader::sobel_edge_detection,
            Shader::difference_of_gaussians_DoG,
            Shader::flow_based_XDoG,
            Shader::edge_direction,
            Shader::bayer_dither,
        ]
    }

    /// Lists every effect, in the order in which the panel offers them.
    pub fn options() -> (shaders: Vec<Shader>)
        ensures
            shaders@ == Shader::all(),
    {
        let mut shaders: Vec<Shader> = Vec::new();
        shaders.push(Shader::none);
        shaders.push(Shader::invert);
        shaders.push(Shader::gaussian_blur);
        shaders.push(Shader::quantization);
        shaders.push(Shader::sobel_edge_detection);
        shaders.push(Shader::difference_of_gaussians_DoG);
        shaders.push(Shader::flow_based_XDoG);
        shaders.push(Shader::edge_direction);
        shaders.push(Shader::bayer_dither);
        assert(shaders@ =~= Shader::all());
        shaders
    }

    /// The settings that mean something to this effect, in the order in which the
    /// panel shows them. The effect ignores every other setting.
    pub open spec fn fields(self) -> Seq<ParameterField> {
        match self {
            Shader::gaussian_blur => seq![ParameterField::Sigma],
            Shader::difference_of_gaussians_DoG => seq![ParameterField::Sigma, ParameterField::Tau],
            Shader::flow_based_XDoG => seq![
                ParameterField::Sigma,
                ParameterField::Tau,
                ParameterField::Gamma,
                ParameterField::Iterations,
            ],
            _ => seq![],
        }
    }

    /// The code the fragment stage branches on.
    pub open spec fn index(self) -> u32 {
        match self {
            Shader::none => PASSTHROUGH_INDEX,
            Shader::invert => 0,
            Shader::gaussian_blur => 1,
            Shader::quantization => 2,
            Shader::sobel_edge_detection => 3,
            Shader::difference_of_gaussians_DoG => 4,
            Shader::flow_based_XDoG => 5,
            Shader::edge_direction => 6,
            Shader::bayer_dither => 7,
        }
    }

    /// No two effects share a code, so the code in a parameter block tells which effect
    /// is selected.
    pub proof fn lemma_codes_distinct(self, other: Shader)
        ensures
            self.index() == other.index() <==> self == other,
    {
    }

    /// Finds the effect that a code of the parameter block stands for.
    pub fn from_index(code: u32) -> (shader: Option<Shader>)
        ensures
            match shader {
                Some(found) => found.index() == code,
                None => forall|other: Shader| other.index() != code,
            },
    {
        match code {
            100 => Some(Shader::none),
            0 => Some(Shader::invert),
            1 => Some(Shader::gaussian_blur),
            2 => Some(Shader::quantization),
            3 => Some(Shader::sobel_edge_detection),
            4 => Some(Shader::difference_of_gaussians_DoG),
            5 => Some(Shader::flow_based_XDoG),
            6 => Some(Shader::edge_direction),
            7 => Some(Shader::bayer_dither),
            _ => None,
        }
    }

    /// The name the panel shows for this effect.
    pub fn name(&self) -> (name: &'static str)
        ensures
            name@ == match self {
                Shader::none => "none"@,
                Shader::invert => "invert"@,
                Shader::gaussian_blur => "gaussian blur"@,
                Shader::quantization => "quantization"@,
                Shader::sobel_edge_detection => "sobel edge detection"@,
                Shader::difference_of_gaussians_DoG => "difference of gaussians DoG"@,
                Shader::flow_based_XDoG => "flow based XDoG"@,
                Shader::edge_direction => "edge direction"@,
                Shader::bayer_dither => "bayer dither"@,
            },
    {
        match self {
            Shader::none => "none",
            Shader::invert => "invert",
            Shader::gaussian_blur => "gaussian blur",
            Shader::quantization => "quantization",
            Shader::sobel_edge_detection => "sobel edge detection",
            Shader::difference_of_gaussians_DoG => "difference of gaussians DoG",
            Shader::flow_based_XDoG => "flow based XDoG",
            Shader::edge_direction => "edge direction",
            Shader::bayer_dither => "bayer dither",
        }
    }

    /// Returns the numeric code of this effect.
    pub fn get_index(&self) -> (code: u32)
        ensures
            code == self.index(),
    {
        match self {
            Shader::none => PASSTHROUGH_INDEX,
            Shader::invert => 0,
            Shader::gaussian_blur => 1,
            Shader::quantization => 2,
            Shader::sobel_edge_detection => 3,
            Shader::difference_of_gaussians_DoG => 4,
            Shader::flow_based_XDoG => 5,
            Shader::edge_direction => 6,
            Shader::bayer_dither => 7,
        }
    }
}

} // verus!
