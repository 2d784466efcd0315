use vstd::prelude::*;
use crate::error::{SpeechError, SpeechErrorView, SpeechResult};
use crate::recognizer_info::{RecognizerInfo, RecognizerInfoView};
use crate::recognizer_options::{RecognizerOptions, RecognizerOptionsView};
use crate::worker_bridge::{worker_engine_info, worker_engine_info_view};

verus! {

/// Where the model for one language lies.
#[derive(Debug, PartialEq)]
pub struct VoskModelInfo {
    pub language: String,
    pub folder: String,
}

/// Mathematical form of a [`VoskModelInfo`].
pub struct VoskModelInfoView {
    pub language: Seq<char>,
    pub folder: Seq<char>,
}

impl View for VoskModelInfo {
    type V = VoskModelInfoView;

    open spec fn view(&self) -> VoskModelInfoView {
        VoskModelInfoView { language: self.language@, folder: self.folder@ }
    }
}

impl DeepView for VoskModelInfo {
    type V = VoskModelInfoView;

    open spec fn deep_view(&self) -> VoskModelInfoView {
        self@
    }
}

/// Everything needed to build a recognizer on the blocking engine.
#[derive(Debug, PartialEq)]
pub struct VoskRecognizerPlan {
    pub info: RecognizerInfo,
    pub model_path: String,
    pub options: RecognizerOptions,
}

/// Mathematical form of a [`VoskRecognizerPlan`].
pub struct VoskRecognizerPlanView {
    pub info: RecognizerInfoView,
    pub model_path: Seq<char>,
    pub options: RecognizerOptionsView,
}

impl View for VoskRecognizerPlan {
    type V = VoskRecognizerPlanView;

    open spec fn view(&self) -> VoskRecognizerPlanView {
        VoskRecognizerPlanView {
            info: self.info@,
            model_path: self.model_path@,
            options: self.options@,
        }
    }
}

/// `index` is the place of the first model for `language`.
pub open spec fn is_first_model_for(
    models: Seq<VoskModelInfoView>,
    language: Seq<char>,
    index: int,
) -> bool {
    &&& 0 <= index < models.len()
    &&& models[index].language == language
    &&& forall|j: int| 0 <= j < index ==> (#[trigger] models[j]).language != language
}

/// No model is for `language`.
pub open spec fn no_model_for(models: Seq<VoskModelInfoView>, language: Seq<char>) -> bool {
    forall|j: int| 0 <= j < models.len() ==> (#[trigger] models[j]).language != language
}

/// The plan for a recognizer with the given options on the given model.
pub open spec fn plan_for(model: VoskModelInfoView, options: RecognizerOptionsView) -> VoskRecognizerPlanView {
    VoskRecognizerPlanView {
        info: worker_engine_info_view(),
        model_path: model.folder,
        options,
    }
}

/// Builds recognizers on the blocking engine from a list of models, one
/// per language; where a language occurs twice the first entry counts.
#[derive(Debug)]
pub struct VoskRecognizerFactory {
    models: Vec<VoskModelInfo>,
}

impl View for VoskRecognizerFactory {
    type V = Seq<VoskModelInfoView>;

    closed spec fn view(&self) -> Seq<VoskModelInfoView> {
        self.models.deep_view()
    }
}

impl VoskRecognizerFactory {
    /// A factory over the given models. The models are not looked at until a
    /// recognizer is asked for, so this never fails.
    pub fn new(models: Vec<VoskModelInfo>) -> (factory: SpeechResult<Self>)
        ensures
            factory matches Ok(f) && f@ == models.deep_view(),
    {
        Ok(Self { models })
    }

    /// The models of the factory.
    pub fn models(&self) -> (models: &Vec<VoskModelInfo>)
        ensures
            models.deep_view() == self@,
    {
        &self.models
    }

    /// The place of the first model for the language, if there is one.
    pub fn find_model(&self, language: &String) -> (found: Option<usize>)
        ensures
            match found {
                Some(index) => is_first_model_for(self@, language@, index as int),
                None => no_model_for(self@, language@),
            },
    {
        let ghost models = self.models.deep_view();
        let mut i: usize = 0;
        while i < self.models.len()
            invariant
                i <= self.models.len(),
                models == self.models.deep_view(),
                forall|j: int| 0 <= j < i ==> (#[trigger] models[j]).language != language@,
            decreases self.models.len() - i,
        {
            assert(models[i as int] == self.models@[i as int]@);
            if self.models[i].language == *language {
                return Some(i);
            }
            i += 1;
        }
        None
    }

    /// Plans a recognizer for the options, on the first model for the
    /// options' language. Fails with
    /// [`SpeechError::NoLanguageFound`], naming the language, exactly when
    /// no model is for it.
    pub fn plan_recognizer(&self, options: RecognizerOptions) -> (plan: Result<
        VoskRecognizerPlan,
        SpeechError,
    >)
        ensures
            match plan {
                Ok(p) => exists|index: int|
                    is_first_model_for(self@, options.language@, index) && p@ == plan_for(
                        self@[index],
                        options@,
                    ),
                Err(e) => no_model_for(self@, options.language@) && e@
                    == SpeechErrorView::NoLanguageFound(options.language@),
            },
    {
        match self.find_model(&options.language) {
            None => Err(SpeechError::NoLanguageFound(options.language)),
            Some(index) => {
                assert(self@[index as int] == self.models@[index as int]@);
                let plan = VoskRecognizerPlan {
                    info: worker_engine_info(),
                    model_path: self.models[index].folder.clone(),
                    options,
                };
                assert(is_first_model_for(self@, options.language@, index as int) && plan@
                    == plan_for(self@[index as int], options@));
                Ok(plan)
            },
        }
    }
}

impl VoskRecognizerPlan {
    /// What loading the model gave: nothing to report if it was loaded, and
    /// [`SpeechError::LanguageFolderError`], naming the model's folder, if it
    /// was not.
    pub fn model_loaded(&self, loaded: bool) -> (checked: Result<(), SpeechError>)
        ensures
            match checked {
                Ok(_) => loaded,
                Err(e) => !loaded && e@ == SpeechErrorView::LanguageFolderError(self.model_path@),
            },
    {
        if loaded {
            Ok(())
        } else {
            Err(SpeechError::LanguageFolderError(self.model_path.clone()))
        }
    }
}

/// The first model for a language is the only one that is first.
pub proof fn lemma_first_model_is_unique(
    models: Seq<VoskModelInfoView>,
    language: Seq<char>,
    a: int,
    b: int,
)
    requires
        is_first_model_for(models, language, a),
        is_first_model_for(models, language, b),
    ensures
        a == b,
{
}

} // verus!
