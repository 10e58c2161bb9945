use notan_sketches::emotion::{
    get_emotion_sentiment, get_mapped_color_plutchik, get_mapped_color_therapy,
    get_mapped_emocolor, ColorMapping, EmocatAnalyzerResults, EmocatAnalyzerScore, EmocatMeta,
    EmocatTextAnalysis, HsvColor, Sentiment, SimpleColorRecipe, Tone, TopEmotionsModel,
};

fn score(marker: &str, score: i32) -> EmocatAnalyzerScore {
    EmocatAnalyzerScore { marker: marker.to_string(), score }
}

fn analysis(nrclex: Vec<EmocatAnalyzerScore>) -> EmocatTextAnalysis {
    EmocatTextAnalysis {
        text: "Some text.".to_string(),
        meta: EmocatMeta { paragraph: 1, from_line: 1, to_line: 2, file: "file.txt".to_string() },
        results: EmocatAnalyzerResults { nrclex, t2e_repo: vec![], t2e_demo: vec![] },
    }
}

fn hsv(hue: u16, saturation: u8, value: u8) -> HsvColor {
    HsvColor { hue, saturation, value }
}

fn markers(scores: &[EmocatAnalyzerScore]) -> Vec<String> {
    scores.iter().map(|s| s.marker.clone()).collect()
}

#[test]
fn test_emotion_sentiments() {
    for e in ["fear", "anger", "sadness", "disgust"] {
        assert_eq!(get_emotion_sentiment(e), Sentiment::NEGATIVE);
    }
    for e in ["trust", "joy"] {
        assert_eq!(get_emotion_sentiment(e), Sentiment::POSITIVE);
    }
    for e in ["anticipation", "surprise", "", "positive", "Joy"] {
        assert_eq!(get_emotion_sentiment(e), Sentiment::NEUTRAL);
    }
}

#[test]
fn test_plutchik_colors() {
    assert_eq!(get_mapped_color_plutchik("fear"), hsv(88, 100, 59));
    assert_eq!(get_mapped_color_plutchik("anger"), hsv(350, 100, 72));
    assert_eq!(get_mapped_color_plutchik("anticipation"), hsv(21, 100, 96));
    assert_eq!(get_mapped_color_plutchik("trust"), hsv(69, 100, 72));
    assert_eq!(get_mapped_color_plutchik("surprise"), hsv(136, 98, 50));
    assert_eq!(get_mapped_color_plutchik("sadness"), hsv(206, 100, 85));
    assert_eq!(get_mapped_color_plutchik("disgust"), hsv(300, 100, 24));
    assert_eq!(get_mapped_color_plutchik("joy"), hsv(55, 100, 91));
    assert_eq!(get_mapped_color_plutchik("boredom"), hsv(180, 0, 50));
}

#[test]
fn test_therapy_colors() {
    assert_eq!(get_mapped_color_therapy("fear"), hsv(60, 80, 100));
    assert_eq!(get_mapped_color_therapy("anger"), hsv(5, 93, 100));
    assert_eq!(get_mapped_color_therapy("anticipation"), hsv(95, 72, 69));
    assert_eq!(get_mapped_color_therapy("trust"), hsv(224, 99, 100));
    assert_eq!(get_mapped_color_therapy("surprise"), hsv(286, 99, 69));
    assert_eq!(get_mapped_color_therapy("sadness"), hsv(224, 99, 100));
    assert_eq!(get_mapped_color_therapy("disgust"), hsv(180, 0, 50));
    assert_eq!(get_mapped_color_therapy("joy"), hsv(36, 99, 98));
    assert_eq!(get_mapped_color_therapy(""), hsv(180, 0, 50));
}

#[test]
fn test_mapped_emocolor_follows_mapping_and_sentiment() {
    let c = get_mapped_emocolor("joy", &ColorMapping::THERAPY);
    assert_eq!(c.emotion, "joy");
    assert_eq!(c.sentiment, Sentiment::POSITIVE);
    assert_eq!(c.hsv, hsv(36, 99, 98));
    let c = get_mapped_emocolor("fear", &ColorMapping::PLUTCHIK);
    assert_eq!(c.sentiment, Sentiment::NEGATIVE);
    assert_eq!(c.hsv, hsv(88, 100, 59));
    for e in ["fear", "anger", "anticipation", "trust", "surprise", "sadness", "disgust", "joy", "x"] {
        for m in [ColorMapping::PLUTCHIK, ColorMapping::THERAPY] {
            let c = get_mapped_emocolor(e, &m);
            assert_eq!(c.sentiment, get_emotion_sentiment(e));
            let expected = match m {
                ColorMapping::PLUTCHIK => get_mapped_color_plutchik(e),
                ColorMapping::THERAPY => get_mapped_color_therapy(e),
            };
            assert_eq!(c.hsv, expected);
        }
    }
}

#[test]
fn test_from_analysis_takes_sentiments_and_ties() {
    let a = analysis(vec![
        score("fear", 10),
        score("positive", 30),
        score("joy", 40),
        score("negative", 20),
        score("trust", 40),
        score("anger", 5),
    ]);
    let model = TopEmotionsModel::from_analysis(&a);
    assert_eq!(model.positive, 30);
    assert_eq!(model.negative, 20);
    assert_eq!(markers(&model.top_emotions), vec!["joy", "trust"]);
    assert!(model.top_emotions.iter().all(|s| s.score == 40));
}

#[test]
fn test_from_analysis_single_top_emotion() {
    let a = analysis(vec![
        score("negative", 7),
        score("sadness", 9),
        score("positive", 3),
        score("joy", 2),
    ]);
    let model = TopEmotionsModel::from_analysis(&a);
    assert_eq!(model.positive, 3);
    assert_eq!(model.negative, 7);
    assert_eq!(markers(&model.top_emotions), vec!["sadness"]);
}

#[test]
fn test_from_analysis_uses_first_sentiment_markers() {
    let a = analysis(vec![
        score("positive", 1),
        score("positive", 100),
        score("negative", 2),
        score("joy", 0),
    ]);
    let model = TopEmotionsModel::from_analysis(&a);
    assert_eq!(model.positive, 1);
    assert_eq!(model.negative, 2);
    // the second "positive" counts as an emotion score
    assert_eq!(markers(&model.top_emotions), vec!["positive"]);
}

#[test]
fn test_from_analysis_all_zero_keeps_every_emotion() {
    let a = analysis(vec![
        score("anger", 0),
        score("positive", 0),
        score("negative", 0),
        score("fear", 0),
        score("joy", 0),
    ]);
    let model = TopEmotionsModel::from_analysis(&a);
    assert_eq!(markers(&model.top_emotions), vec!["anger", "fear", "joy"]);
    assert!(matches!(model.get_simple_color_recipe(), SimpleColorRecipe::Gray));
}

fn model(positive: i32, negative: i32, top: Vec<EmocatAnalyzerScore>) -> TopEmotionsModel {
    TopEmotionsModel { positive, negative, top_emotions: top }
}

#[test]
fn test_dominant_sentiment_and_black_or_white() {
    let m = model(5, 3, vec![score("joy", 1)]);
    assert_eq!(m.dominant_sentiment(), Sentiment::POSITIVE);
    assert_eq!(m.get_black_or_white(), Tone::Black);
    let m = model(3, 5, vec![score("joy", 1)]);
    assert_eq!(m.dominant_sentiment(), Sentiment::NEGATIVE);
    assert_eq!(m.get_black_or_white(), Tone::White);
    let m = model(4, 4, vec![score("joy", 1)]);
    assert_eq!(m.dominant_sentiment(), Sentiment::NEUTRAL);
    assert_eq!(m.get_black_or_white(), Tone::Gray);
}

#[test]
fn test_sentiment_value() {
    let m = model(5, 3, vec![]);
    assert_eq!(m.sentiment_value(Sentiment::POSITIVE), 5);
    assert_eq!(m.sentiment_value(Sentiment::NEGATIVE), 3);
    assert_eq!(m.sentiment_value(Sentiment::NEUTRAL), 5);
    let m = model(2, 9, vec![]);
    assert_eq!(m.sentiment_value(Sentiment::NEUTRAL), 9);
}

#[test]
fn test_top_emocolors_in_order() {
    let m = model(1, 1, vec![score("trust", 4), score("anger", 4)]);
    let colors = m.get_top_emocolors(&ColorMapping::PLUTCHIK);
    assert_eq!(colors.len(), 2);
    assert_eq!(colors[0].emotion, "trust");
    assert_eq!(colors[0].hsv, hsv(69, 100, 72));
    assert_eq!(colors[0].sentiment, Sentiment::POSITIVE);
    assert_eq!(colors[1].emotion, "anger");
    assert_eq!(colors[1].hsv, hsv(350, 100, 72));
    assert_eq!(colors[1].sentiment, Sentiment::NEGATIVE);
}

#[test]
fn test_simple_color_recipe_gray_single_and_mix() {
    let gray = model(1, 1, vec![score("joy", 0)]);
    assert!(matches!(gray.get_simple_color_recipe(), SimpleColorRecipe::Gray));
    let negative = model(1, 1, vec![score("joy", -3)]);
    assert!(matches!(negative.get_simple_color_recipe(), SimpleColorRecipe::Gray));

    let single = model(1, 1, vec![score("sadness", 2)]);
    match single.get_simple_color_recipe() {
        SimpleColorRecipe::Single(c) => assert_eq!(c, hsv(206, 100, 85)),
        _ => panic!("expected a single color"),
    }

    let mixed = model(6, 2, vec![score("joy", 3), score("fear", 3), score("surprise", 3)]);
    match mixed.get_simple_color_recipe() {
        SimpleColorRecipe::Mix { base, mixes } => {
            assert_eq!(base, hsv(180, 0, 50));
            assert_eq!(mixes.len(), 3);
            assert_eq!(mixes[0].hsv, hsv(55, 100, 91));
            assert_eq!(mixes[0].weight, 6);
            assert_eq!(mixes[1].hsv, hsv(88, 100, 59));
            assert_eq!(mixes[1].weight, 2);
            assert_eq!(mixes[2].hsv, hsv(136, 98, 50));
            assert_eq!(mixes[2].weight, 6);
        }
        _ => panic!("expected a mix"),
    }
}

#[test]
fn test_score_clone_is_equal() {
    let s = score("joy", 12);
    let c = s.clone();
    assert_eq!(c.marker, "joy");
    assert_eq!(c.score, 12);
}
