//! What a synthesis run is asked to do, and where that request comes from.
use vstd::prelude::*;
use crate::batch::TtsError;

verus! {

/// One synthesis request: the model directory and accelerator preference,
/// the number of denoising steps and of repetitions, one voice style per
/// text, and the directory that receives the output files.
#[derive(Debug)]
pub struct TtsConfig<'a> {
    pub use_gpu: bool,
    pub onnx_dir: &'a str,
    pub total_step: usize,
    pub n_test: usize,
    pub voice_style_paths: &'a [String],
    pub text_list: &'a [String],
    pub save_dir: &'a str,
}

/// Command-line arguments of a synthesis run, as parsed.
#[derive(Debug)]
pub struct Args {
    pub use_gpu: bool,
    pub onnx_dir: String,
    pub total_step: usize,
    pub n_test: usize,
    pub voice_style: Vec<String>,
    pub text: Vec<String>,
    pub save_dir: String,
}

/// The request that the command line describes, borrowing from `args`.
pub fn cli_entrypoint(args: &Args) -> (r: TtsConfig<'_>)
    ensures
        r.use_gpu == args.use_gpu,
        r.onnx_dir@ == args.onnx_dir@,
        r.total_step == args.total_step,
        r.n_test == args.n_test,
        r.voice_style_paths@ == args.voice_style@,
        r.text_list@ == args.text@,
        r.save_dir@ == args.save_dir@,
{
    TtsConfig {
        use_gpu: args.use_gpu,
        onnx_dir: args.onnx_dir.as_str(),
        total_step: args.total_step,
        n_test: args.n_test,
        voice_style_paths: args.voice_style.as_slice(),
        text_list: args.text.as_slice(),
        save_dir: args.save_dir.as_str(),
    }
}

/// Denoising steps of the single-utterance request.
pub const SINGLE_SHOT_STEPS: usize = 15;

/// The fixed request behind single-utterance synthesis: accelerator on,
/// `SINGLE_SHOT_STEPS` steps, one repetition, output under `output`.
pub fn single_shot_config<'a>(
    onnx_dir: &'a str,
    voice_style_paths: &'a [String],
    text_list: &'a [String],
) -> (r: TtsConfig<'a>)
    ensures
        r.use_gpu,
        r.onnx_dir@ == onnx_dir@,
        r.total_step == SINGLE_SHOT_STEPS,
        r.n_test == 1,
        r.voice_style_paths@ == voice_style_paths@,
        r.text_list@ == text_list@,
        r.save_dir@ == "output"@,
{
    TtsConfig {
        use_gpu: true,
        onnx_dir,
        total_step: SINGLE_SHOT_STEPS,
        n_test: 1,
        voice_style_paths,
        text_list,
        save_dir: "output",
    }
}

/// A single-utterance request has exactly one text, one style and one repetition.
pub open spec fn is_single_shot(n_styles: nat, n_texts: nat, n_test: nat) -> bool {
    n_styles == 1 && n_texts == 1 && n_test == 1
}

/// `Config` unless `config` asks for one utterance, once.
pub fn check_single_shot(config: &TtsConfig) -> (r: Result<(), TtsError>)
    ensures
        r is Ok <==> is_single_shot(
            config.voice_style_paths@.len(),
            config.text_list@.len(),
            config.n_test as nat,
        ),
        r is Err ==> r->Err_0 == TtsError::Config,
{
    if config.voice_style_paths.len() == 1 && config.text_list.len() == 1 && config.n_test == 1 {
        Ok(())
    } else {
        Err(TtsError::Config)
    }
}

} // verus!
