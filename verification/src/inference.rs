//! Model inference backends. A tensor holds its elements and its shape; the
//! element type is the caller's (the framework uses 32-bit floats).
use vstd::prelude::*;
use crate::error::GrassError;

verus! {

/// A tensor: its elements in row-major order and its shape.
pub struct GrassTensor<T> {
    pub data: Vec<T>,
    pub shape: Vec<usize>,
}

/// The message of the error for inference before a model is loaded.
pub open spec fn no_model_message() -> Seq<char> {
    "no model loaded"@
}

/// Runs a model on tensors.
pub trait GrassInferenceBackend {
    /// Whether a model is loaded.
    spec fn has_model(&self) -> bool;

    /// The backend's name.
    fn name(&self) -> (r: &str);

    /// Loads the model at `model_path`.
    fn load_model(&mut self, model_path: &str) -> (r: Result<(), GrassError>);

    /// Runs the loaded model on `input`.
    fn infer<T: Copy>(&self, input: &GrassTensor<T>) -> (r: Result<GrassTensor<T>, GrassError>);

    /// The shape the model takes.
    fn input_shape(&self) -> (r: Vec<usize>);

    /// The shape the model gives.
    fn output_shape(&self) -> (r: Vec<usize>);
}

/// A TensorRT backend: the engine it loaded, if any.
pub struct GrassTensorRtBackend {
    model_loaded: bool,
    engine_path: Option<String>,
}

/// A copy of `v`.
fn copy_elems<T: Copy>(v: &Vec<T>) -> (r: Vec<T>)
    ensures
        r@ == v@,
{
    let mut r: Vec<T> = Vec::new();
    let mut i: usize = 0;
    while i < v.len()
        invariant
            i <= v.len(),
            r@ == v@.take(i as int),
        decreases v.len() - i,
    {
        r.push(v[i]);
        i = i + 1;
        assert(r@ =~= v@.take(i as int));
    }
    assert(v@.take(v.len() as int) =~= v@);
    r
}

impl GrassTensorRtBackend {
    /// The path of the loaded engine, if any.
    pub closed spec fn engine(&self) -> Option<Seq<char>> {
        match self.engine_path {
            Some(p) => Some(p@),
            None => None,
        }
    }

    /// A backend with no model loaded.
    pub fn new() -> (r: Self)
        ensures
            !r.has_model(),
            r.engine() is None,
    {
        GrassTensorRtBackend { model_loaded: false, engine_path: None }
    }

    /// The path of the loaded engine, if any.
    pub fn engine_path(&self) -> (r: Option<&str>)
        ensures
            match r {
                Some(p) => self.engine() == Some(p@),
                None => self.engine() is None,
            },
    {
        match &self.engine_path {
            Some(p) => Some(p.as_str()),
            None => None,
        }
    }
}

impl GrassInferenceBackend for GrassTensorRtBackend {
    closed spec fn has_model(&self) -> bool {
        self.model_loaded
    }

    fn name(&self) -> (r: &str)
        ensures
            r@ == "tensorrt"@,
    {
        "tensorrt"
    }

    /// Records `model_path` as the engine; this succeeds.
    fn load_model(&mut self, model_path: &str) -> (r: Result<(), GrassError>)
        ensures
            r is Ok,
            final(self).has_model(),
            final(self).engine() == Some(model_path@),
    {
        self.engine_path = Some(model_path.to_owned());
        self.model_loaded = true;
        Ok(())
    }

    /// With a model loaded, the input unchanged; without one, an inference
    /// error.
    fn infer<T: Copy>(&self, input: &GrassTensor<T>) -> (r: Result<GrassTensor<T>, GrassError>)
        ensures
            self.has_model() ==> (r matches Ok(t) && t.data@ == input.data@ && t.shape@
                == input.shape@),
            !self.has_model() ==> (r matches Err(GrassError::Inference(m)) && m@
                == no_model_message()),
    {
        if !self.model_loaded {
            return Err(GrassError::Inference("no model loaded".to_owned()));
        }
        Ok(GrassTensor { data: copy_elems(&input.data), shape: copy_elems(&input.shape) })
    }

    /// `[1, 3, 224, 224]`.
    fn input_shape(&self) -> (r: Vec<usize>)
        ensures
            r@ == seq![1usize, 3, 224, 224],
    {
        let r = vec![1usize, 3, 224, 224];
        assert(r@ =~= seq![1usize, 3, 224, 224]);
        r
    }

    /// `[1, 1000]`.
    fn output_shape(&self) -> (r: Vec<usize>)
        ensures
            r@ == seq![1usize, 1000],
    {
        let r = vec![1usize, 1000];
        assert(r@ =~= seq![1usize, 1000]);
        r
    }
}


impl Default for GrassTensorRtBackend {
    /// A backend with no model loaded.
    fn default() -> (r: Self)
        ensures
            !r.has_model(),
            r.engine() is None,
    {
        Self::new()
    }
}

} // verus!
