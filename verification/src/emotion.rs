use vstd::prelude::*;

verus! {

/// Where a paragraph of an analysed text comes from.
pub struct EmocatMeta {
    pub paragraph: u8,
    pub from_line: u8,
    pub to_line: u8,
    pub file: String,
}

/// The score an analyzer gave one marker (an emotion, or `positive` / `negative`).
///
/// `score` is an order key of the analyzer's score: two keys compare (`<`, `==`)
/// exactly as the scores they stand for, and a key is positive, zero or negative
/// exactly when its score is.
pub struct EmocatAnalyzerScore {
    pub marker: String,
    pub score: i32,
}

impl Clone for EmocatAnalyzerScore {
    fn clone(&self) -> (copy: Self)
        ensures
            copy == *self,
    {
        EmocatAnalyzerScore { marker: self.marker.clone(), score: self.score }
    }
}

/// The scores of every analyzer for one paragraph.
pub struct EmocatAnalyzerResults {
    pub nrclex: Vec<EmocatAnalyzerScore>,
    pub t2e_repo: Vec<EmocatAnalyzerScore>,
    pub t2e_demo: Vec<EmocatAnalyzerScore>,
}

/// The analysis of one paragraph of text.
pub struct EmocatTextAnalysis {
    pub text: String,
    pub meta: EmocatMeta,
    pub results: EmocatAnalyzerResults,
}

/// Represents an `emocat` output document
pub struct EmocatOutputDoc {
    pub title: String,
    pub author: String,
    pub analyses: Vec<EmocatTextAnalysis>,
}

/// A color in the HSV model: `hue` in degrees, `saturation` and `value` in
/// hundredths (100 stands for 1.0).
#[derive(Clone, Copy, Debug, PartialEq, Eq, Structural)]
pub struct HsvColor {
    pub hue: u16,
    pub saturation: u8,
    pub value: u8,
}

/// A color and a sentiment mapped to an emotion.
pub struct EmoColor {
    pub emotion: String,
    pub sentiment: Sentiment,
    pub hsv: HsvColor,
}

#[derive(Clone, Copy, Debug, PartialEq, Eq, Structural)]
pub enum Sentiment {
    POSITIVE,
    NEGATIVE,
    NEUTRAL,
}

#[derive(Clone, Copy, Debug, PartialEq, Eq, Structural)]
pub enum ColorMapping {
    PLUTCHIK,
    THERAPY,
}

/// Whether two strings hold the same characters.
pub(crate) fn same_text(a: &str, b: &str) -> (same: bool)
    ensures
        same == (a@ == b@),
{
    let n = a.unicode_len();
    if n != b.unicode_len() {
        return false;
    }
    let mut i: usize = 0;
    while i < n
        invariant
            n == a@.len(),
            n == b@.len(),
            i <= n,
            forall|j: int| 0 <= j < i ==> a@[j] == b@[j],
        decreases n - i,
    {
        if a.get_char(i) != b.get_char(i) {
            return false;
        }
        i = i + 1;
    }
    assert(a@ =~= b@);
    true
}

/// The sentiment associated with an emotion.
pub open spec fn emotion_sentiment(emotion: Seq<char>) -> Sentiment {
    if emotion == "fear"@ || emotion == "anger"@ || emotion == "sadness"@ || emotion
        == "disgust"@ {
        Sentiment::NEGATIVE
    } else if emotion == "trust"@ || emotion == "joy"@ {
        Sentiment::POSITIVE
    } else {
        Sentiment::NEUTRAL
    }
}

/// The HSV color with the given hue (degrees), saturation and value (hundredths).
pub open spec fn hsv(hue: u16, saturation: u8, value: u8) -> HsvColor {
    HsvColor { hue, saturation, value }
}

/// The color of an emotion on Plutchik's color wheel; a neutral gray for anything
/// that is not one of its eight emotions.
pub open spec fn plutchik_color(emotion: Seq<char>) -> HsvColor {
    if emotion == "fear"@ {
        hsv(88, 100, 59)
    } else if emotion == "anger"@ {
        hsv(350, 100, 72)
    } else if emotion == "anticipation"@ {
        hsv(21, 100, 96)
    } else if emotion == "trust"@ {
        hsv(69, 100, 72)
    } else if emotion == "surprise"@ {
        hsv(136, 98, 50)
    } else if emotion == "sadness"@ {
        hsv(206, 100, 85)
    } else if emotion == "disgust"@ {
        hsv(300, 100, 24)
    } else if emotion == "joy"@ {
        hsv(55, 100, 91)
    } else {
        hsv(180, 0, 50)
    }
}

/// The color of an emotion after the art therapy color associations; a neutral gray
/// for anything that is not one of the eight emotions.
pub open spec fn therapy_color(emotion: Seq<char>) -> HsvColor {
    if emotion == "fear"@ {
        hsv(60, 80, 100)
    } else if emotion == "anger"@ {
        hsv(5, 93, 100)
    } else if emotion == "anticipation"@ {
        hsv(95, 72, 69)
    } else if emotion == "trust"@ {
        hsv(224, 99, 100)
    } else if emotion == "surprise"@ {
        hsv(286, 99, 69)
    } else if emotion == "sadness"@ {
        hsv(224, 99, 100)
    } else if emotion == "disgust"@ {
        hsv(180, 0, 50)
    } else if emotion == "joy"@ {
        hsv(36, 99, 98)
    } else {
        hsv(180, 0, 50)
    }
}

/// The color that `mapping` gives an emotion.
pub open spec fn mapped_color(mapping: ColorMapping, emotion: Seq<char>) -> HsvColor {
    match mapping {
        ColorMapping::THERAPY => therapy_color(emotion),
        ColorMapping::PLUTCHIK => plutchik_color(emotion),
    }
}

/// Returns the sentiment associated with an emotion: negative for fear, anger,
/// sadness and disgust, positive for trust and joy, neutral for anything else.
pub fn get_emotion_sentiment(emotion: &str) -> (sentiment: Sentiment)
    ensures
        sentiment == emotion_sentiment(emotion@),
{
    if same_text(emotion, "fear") || same_text(emotion, "anger") || same_text(emotion, "sadness")
        || same_text(emotion, "disgust") {
        Sentiment::NEGATIVE
    } else if same_text(emotion, "trust") || same_text(emotion, "joy") {
        Sentiment::POSITIVE
    } else {
        Sentiment::NEUTRAL
    }
}

/// Exactly fear, anger, sadness and disgust are negative and exactly trust and joy
/// are positive; every other text is neutral, among them the sentiment markers
/// `positive` and `negative`, which name no emotion.
pub proof fn lemma_emotion_sentiment_table(emotion: Seq<char>)
    ensures
        emotion_sentiment(emotion) == Sentiment::NEGATIVE <==> (emotion == "fear"@ || emotion
            == "anger"@ || emotion == "sadness"@ || emotion == "disgust"@),
        emotion_sentiment(emotion) == Sentiment::POSITIVE <==> (emotion == "trust"@ || emotion
            == "joy"@),
        emotion_sentiment(emotion) == Sentiment::NEUTRAL <==> !(emotion == "fear"@ || emotion
            == "anger"@ || emotion == "sadness"@ || emotion == "disgust"@ || emotion == "trust"@
            || emotion == "joy"@),
        emotion_sentiment("positive"@) == Sentiment::NEUTRAL,
        emotion_sentiment("negative"@) == Sentiment::NEUTRAL,
{
    // The eight texts differ in their first letter.
    reveal_strlit("fear");
    reveal_strlit("anger");
    reveal_strlit("sadness");
    reveal_strlit("disgust");
    reveal_strlit("trust");
    reveal_strlit("joy");
    reveal_strlit("positive");
    reveal_strlit("negative");
    assert("fear"@[0] == 'f' && "anger"@[0] == 'a' && "sadness"@[0] == 's' && "disgust"@[0]
        == 'd');
    assert("trust"@[0] == 't' && "joy"@[0] == 'j' && "positive"@[0] == 'p' && "negative"@[0]
        == 'n');
}

/// Returns color mapped to the emotion provided based on Plutchik color wheel here:
/// http://shelleycrick.com/how-color-affects-emotions/
pub fn get_mapped_color_plutchik(emotion: &str) -> (color: HsvColor)
    ensures
        color == plutchik_color(emotion@),
{
    if same_text(emotion, "fear") {
        HsvColor { hue: 88, saturation: 100, value: 59 }
    } else if same_text(emotion, "anger") {
        HsvColor { hue: 350, saturation: 100, value: 72 }
    } else if same_text(emotion, "anticipation") {
        HsvColor { hue: 21, saturation: 100, value: 96 }
    } else if same_text(emotion, "trust") {
        HsvColor { hue: 69, saturation: 100, value: 72 }
    } else if same_text(emotion, "surprise") {
        HsvColor { hue: 136, saturation: 98, value: 50 }
    } else if same_text(emotion, "sadness") {
        HsvColor { hue: 206, saturation: 100, value: 85 }
    } else if same_text(emotion, "disgust") {
        HsvColor { hue: 300, saturation: 100, value: 24 }
    } else if same_text(emotion, "joy") {
        HsvColor { hue: 55, saturation: 100, value: 91 }
    } else {
        HsvColor { hue: 180, saturation: 0, value: 50 }
    }
}

/// Returns color mapped to the emotion provided based on the art therapy color
/// associations here (the source does not map every emotion plainly, so some are
/// loose interpretations, and disgust gets a neutral gray):
///
/// http://www.arttherapyblog.com/online/color-meanings-symbolism
pub fn get_mapped_color_therapy(emotion: &str) -> (color: HsvColor)
    ensures
        color == therapy_color(emotion@),
{
    if same_text(emotion, "fear") {
        HsvColor { hue: 60, saturation: 80, value: 100 }
    } else if same_text(emotion, "anger") {
        HsvColor { hue: 5, saturation: 93, value: 100 }
    } else if same_text(emotion, "anticipation") {
        HsvColor { hue: 95, saturation: 72, value: 69 }
    } else if same_text(emotion, "trust") {
        HsvColor { hue: 224, saturation: 99, value: 100 }
    } else if same_text(emotion, "surprise") {
        HsvColor { hue: 286, saturation: 99, value: 69 }
    } else if same_text(emotion, "sadness") {
        HsvColor { hue: 224, saturation: 99, value: 100 }
    } else if same_text(emotion, "disgust") {
        HsvColor { hue: 180, saturation: 0, value: 50 }
    } else if same_text(emotion, "joy") {
        HsvColor { hue: 36, saturation: 99, value: 98 }
    } else {
        HsvColor { hue: 180, saturation: 0, value: 50 }
    }
}

/// Returns colors & sentiment mapped to the emotion provided
pub fn get_mapped_emocolor(emotion: &str, color_mapping: &ColorMapping) -> (emocolor: EmoColor)
    ensures
        emocolor.emotion@ == emotion@,
        emocolor.sentiment == emotion_sentiment(emotion@),
        emocolor.hsv == mapped_color(*color_mapping, emotion@),
{
    let hsv = match color_mapping {
        ColorMapping::THERAPY => get_mapped_color_therapy(emotion),
        _ => get_mapped_color_plutchik(emotion),
    };
    EmoColor { emotion: emotion.to_owned(), sentiment: get_emotion_sentiment(emotion), hsv }
}

/// Whether some score in `scores` is for `marker`.
pub open spec fn has_marker(scores: Seq<EmocatAnalyzerScore>, marker: Seq<char>) -> bool {
    exists|i: int| 0 <= i < scores.len() && #[trigger] scores[i].marker@ == marker
}

/// Whether `i` is the position of the first score for `marker` in `scores`.
pub open spec fn is_first_marker_index(
    scores: Seq<EmocatAnalyzerScore>,
    marker: Seq<char>,
    i: int,
) -> bool {
    &&& 0 <= i < scores.len()
    &&& scores[i].marker@ == marker
    &&& forall|j: int| 0 <= j < i ==> #[trigger] scores[j].marker@ != marker
}

/// The position of the first score for `marker` in `scores`.
pub open spec fn first_marker_index(scores: Seq<EmocatAnalyzerScore>, marker: Seq<char>) -> int {
    choose|i: int| is_first_marker_index(scores, marker, i)
}

/// `scores` without its first score for `marker`.
pub open spec fn without_first_marker(
    scores: Seq<EmocatAnalyzerScore>,
    marker: Seq<char>,
) -> Seq<EmocatAnalyzerScore> {
    scores.remove(first_marker_index(scores, marker))
}

/// The emotion scores of an `nrclex` analysis: every score but the first one for
/// `positive` and (after that) the first one for `negative`.
pub open spec fn emotion_scores(nrclex: Seq<EmocatAnalyzerScore>) -> Seq<EmocatAnalyzerScore> {
    without_first_marker(without_first_marker(nrclex, "positive"@), "negative"@)
}

/// The highest score key in a nonempty sequence of scores.
pub open spec fn max_score(scores: Seq<EmocatAnalyzerScore>) -> i32
    decreases scores.len(),
{
    if scores.len() <= 1 {
        scores[0].score
    } else {
        let rest = max_score(scores.drop_last());
        if scores.last().score > rest {
            scores.last().score
        } else {
            rest
        }
    }
}

/// The scores that share the highest score, in the order they come in.
pub open spec fn top_scores(scores: Seq<EmocatAnalyzerScore>) -> Seq<EmocatAnalyzerScore> {
    scores.filter(|s: EmocatAnalyzerScore| s.score == max_score(scores))
}

/// The highest score is one of the scores, and no score is higher.
pub proof fn lemma_max_score(scores: Seq<EmocatAnalyzerScore>)
    requires
        scores.len() > 0,
    ensures
        exists|i: int| 0 <= i < scores.len() && #[trigger] scores[i].score == max_score(scores),
        forall|i: int| 0 <= i < scores.len() ==> #[trigger] scores[i].score <= max_score(scores),
    decreases scores.len(),
{
    if scores.len() > 1 {
        let rest = scores.drop_last();
        lemma_max_score(rest);
        assert forall|i: int| 0 <= i < scores.len() implies #[trigger] scores[i].score <= max_score(
            scores,
        ) by {
            if i < rest.len() {
                assert(scores[i] == rest[i]);
            }
        }
        if scores.last().score > max_score(rest) {
            assert(scores[scores.len() - 1].score == max_score(scores));
        } else {
            let k = choose|k: int| 0 <= k < rest.len() && #[trigger] rest[k].score == max_score(rest);
            assert(scores[k] == rest[k]);
        }
    } else {
        assert(scores[0].score == max_score(scores));
    }
}

/// The position of the first score for `marker` in `scores`.
fn first_index_of_marker(scores: &Vec<EmocatAnalyzerScore>, marker: &str) -> (i: usize)
    requires
        has_marker(scores@, marker@),
    ensures
        i == first_marker_index(scores@, marker@),
        is_first_marker_index(scores@, marker@, i as int),
{
    let mut i: usize = 0;
    while i < scores.len()
        invariant
            i <= scores@.len(),
            has_marker(scores@, marker@),
            forall|j: int| 0 <= j < i ==> #[trigger] scores@[j].marker@ != marker@,
        decreases scores.len() - i,
    {
        if same_text(scores[i].marker.as_str(), marker) {
            proof {
                lemma_first_marker_index_unique(scores@, marker@, i as int);
            }
            return i;
        }
        i = i + 1;
    }
    proof {
        let k = choose|k: int| 0 <= k < scores@.len() && #[trigger] scores@[k].marker@ == marker@;
        assert(scores@[k].marker@ != marker@);
    }
    0
}

/// The first position of a marker is the only position with that property.
proof fn lemma_first_marker_index_unique(scores: Seq<EmocatAnalyzerScore>, marker: Seq<char>, i: int)
    requires
        is_first_marker_index(scores, marker, i),
    ensures
        first_marker_index(scores, marker) == i,
{
    let k = first_marker_index(scores, marker);
    assert(is_first_marker_index(scores, marker, k));
    if k < i {
        assert(scores[k].marker@ != marker);
    } else if k > i {
        assert(scores[i].marker@ != marker);
    }
}

/// The empty string names no emotion, so Plutchik's wheel maps it to the neutral gray.
proof fn lemma_no_emotion_is_gray()
    ensures
        plutchik_color(""@) == hsv(180, 0, 50),
{
    reveal_strlit("");
    reveal_strlit("fear");
    reveal_strlit("anger");
    reveal_strlit("anticipation");
    reveal_strlit("trust");
    reveal_strlit("surprise");
    reveal_strlit("sadness");
    reveal_strlit("disgust");
    reveal_strlit("joy");
    assert(""@.len() == 0);
    assert(""@ != "fear"@ && ""@ != "anger"@ && ""@ != "anticipation"@ && ""@ != "trust"@);
    assert(""@ != "surprise"@ && ""@ != "sadness"@ && ""@ != "disgust"@ && ""@ != "joy"@);
}

/// What `get_black_or_white` answers: black, white or gray.
#[derive(Clone, Copy, Debug, PartialEq, Eq, Structural)]
pub enum Tone {
    White,
    Black,
    Gray,
}

pub struct TopEmotionsModel {
    /// Score key of the `positive` sentiment.
    pub positive: i32,
    /// Score key of the `negative` sentiment.
    pub negative: i32,
    /// The emotions sharing the highest score, in the order the analysis lists them.
    pub top_emotions: Vec<EmocatAnalyzerScore>,
}

impl TopEmotionsModel {
    /// Builds the model from the `nrclex` scores of an analysis: the sentiment scores
    /// are those of the first `positive` and the first `negative` marker, and the
    /// top emotions are all the other scores that share the highest score.
    pub fn from_analysis(analysis: &EmocatTextAnalysis) -> (model: Self)
        requires
            has_marker(analysis.results.nrclex@, "positive"@),
            has_marker(without_first_marker(analysis.results.nrclex@, "positive"@), "negative"@),
            emotion_scores(analysis.results.nrclex@).len() > 0,
        ensures
            model.positive == analysis.results.nrclex@[first_marker_index(
                analysis.results.nrclex@,
                "positive"@,
            )].score,
            model.negative == without_first_marker(
                analysis.results.nrclex@,
                "positive"@,
            )[first_marker_index(
                without_first_marker(analysis.results.nrclex@, "positive"@),
                "negative"@,
            )].score,
            model.top_emotions@ == top_scores(emotion_scores(analysis.results.nrclex@)),
    {
        let nrclex = &analysis.results.nrclex;
        let mut scores: Vec<EmocatAnalyzerScore> = Vec::new();
        let mut k: usize = 0;
        while k < nrclex.len()
            invariant
                k <= nrclex@.len(),
                scores@ == nrclex@.subrange(0, k as int),
            decreases nrclex.len() - k,
        {
            scores.push(nrclex[k].clone());
            k = k + 1;
        }
        assert(scores@ =~= nrclex@);

        let positive_pos = first_index_of_marker(&scores, "positive");
        let positive_sentiment = scores.remove(positive_pos);
        let negative_pos = first_index_of_marker(&scores, "negative");
        let negative_sentiment = scores.remove(negative_pos);
        let ghost all = scores@;

        // The highest score.
        let mut top_score = scores[0].score;
        let mut i: usize = 1;
        while i < scores.len()
            invariant
                all == scores@,
                1 <= i <= scores@.len(),
                top_score == max_score(scores@.subrange(0, i as int)),
            decreases scores.len() - i,
        {
            assert(scores@.subrange(0, i + 1).drop_last() =~= scores@.subrange(0, i as int));
            if scores[i].score > top_score {
                top_score = scores[i].score;
            }
            i = i + 1;
        }
        assert(scores@.subrange(0, scores.len() as int) =~= scores@);

        // Every score equal to it, in order.
        let ghost pred = |s: EmocatAnalyzerScore| s.score == max_score(all);
        let mut top_emotions: Vec<EmocatAnalyzerScore> = Vec::new();
        let mut j: usize = 0;
        while j < scores.len()
            invariant
                all == scores@,
                top_score == max_score(all),
                pred == (|s: EmocatAnalyzerScore| s.score == max_score(all)),
                j <= scores@.len(),
                top_emotions@ == scores@.subrange(0, j as int).filter(pred),
            decreases scores.len() - j,
        {
            reveal_with_fuel(Seq::<_>::filter, 1);
            assert(scores@.subrange(0, j + 1).drop_last() =~= scores@.subrange(0, j as int));
            if scores[j].score == top_score {
                top_emotions.push(scores[j].clone());
            }
            j = j + 1;
        }
        assert(scores@.subrange(0, scores.len() as int) =~= scores@);
        TopEmotionsModel {
            positive: positive_sentiment.score,
            negative: negative_sentiment.score,
            top_emotions,
        }
    }
}

/// The sentiment that dominates in a pair of sentiment scores.
pub open spec fn dominant(positive: i32, negative: i32) -> Sentiment {
    if positive > negative {
        Sentiment::POSITIVE
    } else if negative > positive {
        Sentiment::NEGATIVE
    } else {
        Sentiment::NEUTRAL
    }
}

/// The sentiment score that weighs a color of the given sentiment: the positive score
/// for a positive emotion, the negative one for a negative emotion, and the dominant
/// one for a neutral emotion.
pub open spec fn sentiment_weight(positive: i32, negative: i32, sentiment: Sentiment) -> i32 {
    match sentiment {
        Sentiment::POSITIVE => positive,
        Sentiment::NEGATIVE => negative,
        Sentiment::NEUTRAL => if positive >= negative {
            positive
        } else {
            negative
        },
    }
}

/// A sentiment dominates exactly when its score is the higher one, whatever the
/// scores are (zero included); the text is neutral exactly when they are equal.
pub proof fn lemma_dominant(positive: i32, negative: i32)
    ensures
        dominant(positive, negative) == Sentiment::POSITIVE <==> positive > negative,
        dominant(positive, negative) == Sentiment::NEGATIVE <==> negative > positive,
        dominant(positive, negative) == Sentiment::NEUTRAL <==> positive == negative,
{
}

/// The color of a negative emotion is weighed by the negative score and that of a
/// positive emotion by the positive score, whatever the two scores are; that of a
/// neutral emotion by the larger of the two.
pub proof fn lemma_sentiment_weight(positive: i32, negative: i32)
    ensures
        sentiment_weight(positive, negative, Sentiment::NEGATIVE) == negative,
        sentiment_weight(positive, negative, Sentiment::POSITIVE) == positive,
        sentiment_weight(positive, negative, Sentiment::NEUTRAL) >= positive,
        sentiment_weight(positive, negative, Sentiment::NEUTRAL) >= negative,
        sentiment_weight(positive, negative, Sentiment::NEUTRAL) == positive || sentiment_weight(
            positive,
            negative,
            Sentiment::NEUTRAL,
        ) == negative,
{
}

/// One color to mix into the running color, weighed by a sentiment score key
/// (the mix factor is twice the score).
pub struct ColorMix {
    pub hsv: HsvColor,
    pub weight: i32,
}

/// How the simple color of a model is made.
pub enum SimpleColorRecipe {
    /// No emotion has a score: a neutral gray.
    Gray,
    /// A single top emotion: its color.
    Single(HsvColor),
    /// Several top emotions: starting from `base`, each color mixed in turn.
    Mix { base: HsvColor, mixes: Vec<ColorMix> },
}

impl TopEmotionsModel {
    /// The sentiment that dominates the text: positive or negative when its score is
    /// the higher one, neutral when the scores are equal.
    pub fn dominant_sentiment(&self) -> (sentiment: Sentiment)
        ensures
            sentiment == dominant(self.positive, self.negative),
    {
        if self.positive > self.negative {
            return Sentiment::POSITIVE;
        }
        if self.negative > self.positive {
            return Sentiment::NEGATIVE;
        }
        Sentiment::NEUTRAL
    }

    /// Black if the dominant sentiment of the text is positive, white if it is
    /// negative, and gray if the sentiments are equal.
    pub fn get_black_or_white(&self) -> (tone: Tone)
        ensures
            tone == match dominant(self.positive, self.negative) {
                Sentiment::POSITIVE => Tone::Black,
                Sentiment::NEGATIVE => Tone::White,
                Sentiment::NEUTRAL => Tone::Gray,
            },
    {
        match self.dominant_sentiment() {
            Sentiment::POSITIVE => Tone::Black,
            Sentiment::NEGATIVE => Tone::White,
            Sentiment::NEUTRAL => Tone::Gray,
        }
    }

    /// The sentiment score that weighs a color of the given sentiment.
    pub fn sentiment_value(&self, sentiment: Sentiment) -> (value: i32)
        ensures
            value == sentiment_weight(self.positive, self.negative, sentiment),
    {
        match sentiment {
            Sentiment::POSITIVE => self.positive,
            Sentiment::NEGATIVE => self.negative,
            Sentiment::NEUTRAL => if self.positive >= self.negative {
                self.positive
            } else {
                self.negative
            },
        }
    }

    /// The colors (and sentiments) of the top emotions, in order.
    pub fn get_top_emocolors(&self, color_mapping: &ColorMapping) -> (emocolors: Vec<EmoColor>)
        ensures
            emocolors@.len() == self.top_emotions@.len(),
            forall|i: int|
                0 <= i < emocolors@.len() ==> {
                    &&& (#[trigger] emocolors@[i]).emotion@ == self.top_emotions@[i].marker@
                    &&& emocolors@[i].sentiment == emotion_sentiment(self.top_emotions@[i].marker@)
                    &&& emocolors@[i].hsv == mapped_color(
                        *color_mapping,
                        self.top_emotions@[i].marker@,
                    )
                },
    {
        let mut emocolors: Vec<EmoColor> = Vec::new();
        let mut i: usize = 0;
        while i < self.top_emotions.len()
            invariant
                i <= self.top_emotions@.len(),
                emocolors@.len() == i,
                forall|k: int|
                    0 <= k < i ==> {
                        &&& (#[trigger] emocolors@[k]).emotion@ == self.top_emotions@[k].marker@
                        &&& emocolors@[k].sentiment == emotion_sentiment(
                            self.top_emotions@[k].marker@,
                        )
                        &&& emocolors@[k].hsv == mapped_color(
                            *color_mapping,
                            self.top_emotions@[k].marker@,
                        )
                    },
            decreases self.top_emotions.len() - i,
        {
            emocolors.push(get_mapped_emocolor(self.top_emotions[i].marker.as_str(), color_mapping));
            i = i + 1;
        }
        emocolors
    }

    /// How the simple color of the text is made: a neutral gray if no emotion has a
    /// score; the Plutchik color of the emotion if only one has the high score;
    /// otherwise, starting from the neutral gray, the Plutchik color of each top
    /// emotion mixed in, weighed by the sentiment score that its sentiment names.
    pub fn get_simple_color_recipe(&self) -> (recipe: SimpleColorRecipe)
        requires
            self.top_emotions@.len() > 0,
        ensures
            self.top_emotions@[0].score <= 0 ==> recipe is Gray,
            self.top_emotions@[0].score > 0 && self.top_emotions@.len() == 1 ==> recipe
                == SimpleColorRecipe::Single(plutchik_color(self.top_emotions@[0].marker@)),
            self.top_emotions@[0].score > 0 && self.top_emotions@.len() > 1 ==> {
                &&& recipe is Mix
                &&& recipe->base == hsv(180, 0, 50)
                &&& recipe->mixes@.len() == self.top_emotions@.len()
                &&& forall|i: int|
                    0 <= i < recipe->mixes@.len() ==> {
                        &&& (#[trigger] recipe->mixes@[i]).hsv == plutchik_color(
                            self.top_emotions@[i].marker@,
                        )
                        &&& recipe->mixes@[i].weight == sentiment_weight(
                            self.positive,
                            self.negative,
                            emotion_sentiment(self.top_emotions@[i].marker@),
                        )
                    }
            },
    {
        if self.top_emotions[0].score > 0 {
            let color_mapping = ColorMapping::PLUTCHIK;
            let emocolors = self.get_top_emocolors(&color_mapping);
            if emocolors.len() > 1 {
                let base = get_mapped_emocolor("", &color_mapping).hsv;
                let mut mixes: Vec<ColorMix> = Vec::new();
                let mut i: usize = 0;
                while i < emocolors.len()
                    invariant
                        i <= emocolors@.len(),
                        emocolors@.len() == self.top_emotions@.len(),
                        mixes@.len() == i,
                        forall|k: int|
                            0 <= k < emocolors@.len() ==> {
                                &&& (#[trigger] emocolors@[k]).sentiment == emotion_sentiment(
                                    self.top_emotions@[k].marker@,
                                )
                                &&& emocolors@[k].hsv == plutchik_color(
                                    self.top_emotions@[k].marker@,
                                )
                            },
                        forall|k: int|
                            0 <= k < i ==> {
                                &&& (#[trigger] mixes@[k]).hsv == plutchik_color(
                                    self.top_emotions@[k].marker@,
                                )
                                &&& mixes@[k].weight == sentiment_weight(
                                    self.positive,
                                    self.negative,
                                    emotion_sentiment(self.top_emotions@[k].marker@),
                                )
                            },
                    decreases emocolors.len() - i,
                {
                    let weight = self.sentiment_value(emocolors[i].sentiment);
                    mixes.push(ColorMix { hsv: emocolors[i].hsv, weight });
                    i = i + 1;
                }
                proof {
                    lemma_no_emotion_is_gray();
                }
                SimpleColorRecipe::Mix { base, mixes }
            } else {
                SimpleColorRecipe::Single(emocolors[0].hsv)
            }
        } else {
            SimpleColorRecipe::Gray
        }
    }
}

/// The top emotions all share the highest score, and every emotion scoring it is
/// one of them.
pub proof fn lemma_top_scores(scores: Seq<EmocatAnalyzerScore>)
    requires
        scores.len() > 0,
    ensures
        top_scores(scores).len() > 0,
        forall|i: int|
            0 <= i < top_scores(scores).len() ==> #[trigger] top_scores(scores)[i].score
                == max_score(scores),
        forall|i: int| 0 <= i < scores.len() ==> #[trigger] scores[i].score <= max_score(scores),
        forall|i: int|
            0 <= i < scores.len() && #[trigger] scores[i].score == max_score(scores)
                ==> top_scores(scores).contains(scores[i]),
{
    let pred = |s: EmocatAnalyzerScore| s.score == max_score(scores);
    lemma_max_score(scores);
    assert forall|i: int| 0 <= i < top_scores(scores).len() implies #[trigger] top_scores(
        scores,
    )[i].score == max_score(scores) by {
        scores.lemma_filter_pred(pred, i);
    }
    assert forall|i: int|
        0 <= i < scores.len() && #[trigger] scores[i].score == max_score(scores) implies top_scores(
        scores,
    ).contains(scores[i]) by {
        scores.lemma_filter_contains(pred, i);
    }
    let k = choose|k: int| 0 <= k < scores.len() && #[trigger] scores[k].score == max_score(scores);
    scores.lemma_filter_contains(pred, k);
}

/// The positions in `s` of the items that `pred` keeps, in increasing order: the
/// filtered sequence takes its items from exactly these positions.
proof fn lemma_filter_positions<A>(s: Seq<A>, pred: spec_fn(A) -> bool) -> (idx: Seq<int>)
    ensures
        taken_in_order(s.filter(pred), s, idx),
        forall|i: int| 0 <= i < s.len() ==> (pred(#[trigger] s[i]) <==> idx.contains(i)),
    decreases s.len(),
{
    reveal_with_fuel(Seq::<_>::filter, 1);
    if s.len() == 0 {
        Seq::<int>::empty()
    } else {
        let rest = s.drop_last();
        let prev = lemma_filter_positions(rest, pred);
        let last = s.len() - 1;
        assert forall|i: int| 0 <= i < last implies s[i] == rest[i] by {}
        if pred(s.last()) {
            let idx = prev.push(last);
            assert forall|i: int| 0 <= i < s.len() implies (pred(#[trigger] s[i])
                <==> idx.contains(i)) by {
                if i < last {
                    assert(s[i] == rest[i]);
                    if prev.contains(i) {
                        let k = choose|k: int| 0 <= k < prev.len() && prev[k] == i;
                        assert(idx[k] == i);
                    }
                    if idx.contains(i) {
                        let k = choose|k: int| 0 <= k < idx.len() && idx[k] == i;
                        assert(k < prev.len());
                        assert(prev[k] == i);
                    }
                } else {
                    assert(idx[prev.len() as int] == last);
                }
            }
            idx
        } else {
            assert forall|i: int| 0 <= i < s.len() implies (pred(#[trigger] s[i])
                <==> prev.contains(i)) by {
                if i < last {
                    assert(s[i] == rest[i]);
                } else {
                    if prev.contains(i) {
                        let k = choose|k: int| 0 <= k < prev.len() && prev[k] == i;
                    }
                }
            }
            prev
        }
    }
}

/// Whether `idx` lists positions of `s`, in increasing order, whose items make up
/// `sub`: `sub` is `s` with some items left out and the others kept in order.
pub open spec fn taken_in_order<A>(sub: Seq<A>, s: Seq<A>, idx: Seq<int>) -> bool {
    &&& idx.len() == sub.len()
    &&& forall|k: int| 0 <= k < idx.len() ==> 0 <= #[trigger] idx[k] < s.len() && sub[k] == s[idx[k]]
    &&& forall|k: int, l: int| 0 <= k < l < idx.len() ==> idx[k] < idx[l]
}

/// The top emotions keep the order of the analysis: they are the scores that reach
/// the highest score, each taken from its own position, the positions increasing;
/// no score that reaches it is left out, and no other score is taken.
pub proof fn lemma_top_scores_in_order(scores: Seq<EmocatAnalyzerScore>)
    requires
        scores.len() > 0,
    ensures
        exists|idx: Seq<int>|
            {
                &&& #[trigger] taken_in_order(top_scores(scores), scores, idx)
                &&& forall|i: int|
                    0 <= i < scores.len() ==> (idx.contains(i) <==> forall|j: int|
                        0 <= j < scores.len() ==> #[trigger] scores[j].score <= scores[i].score)
            },
{
    let pred = |s: EmocatAnalyzerScore| s.score == max_score(scores);
    lemma_max_score(scores);
    let idx = lemma_filter_positions(scores, pred);
    let m = choose|m: int| 0 <= m < scores.len() && #[trigger] scores[m].score == max_score(scores);
    assert forall|i: int| 0 <= i < scores.len() implies (idx.contains(i) <==> forall|j: int|
        0 <= j < scores.len() ==> #[trigger] scores[j].score <= scores[i].score) by {
        assert(pred(scores[i]) <==> idx.contains(i));
        if forall|j: int| 0 <= j < scores.len() ==> #[trigger] scores[j].score <= scores[i].score {
            assert(scores[m].score <= scores[i].score);
        }
    }
    assert(taken_in_order(top_scores(scores), scores, idx));
}

} // verus!
